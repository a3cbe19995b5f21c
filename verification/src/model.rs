use vstd::prelude::*;

verus! {

/// What a scalar is: nothing, a truth value, a number or a text.
pub enum Atom {
    Null,
    Bool(bool),
    Int(i64),
    UInt(u64),
    /// A floating-point number, as its IEEE-754 bit pattern.
    Float(u64),
    Str(Seq<char>),
}

/// What a document node is: a scalar, an ordered sequence of nodes, or the
/// entries of a nested mapping.
pub enum Node {
    Scalar(Atom),
    Sequence(Seq<Node>),
    Mapping(Seq<(Seq<char>, Node)>),
}

/// The entries of a mapping, each a key with its node, in insertion order.
pub type Fields = Seq<(Seq<char>, Node)>;

/// Some entry of `m` stands under `key`.
pub open spec fn has_key(m: Fields, key: Seq<char>) -> bool {
    exists|i: int| 0 <= i < m.len() && #[trigger] m[i].0 == key
}

/// `i` is the index of the first entry of `m` that stands under `key`.
pub open spec fn first_at(m: Fields, key: Seq<char>, i: int) -> bool {
    &&& 0 <= i < m.len()
    &&& m[i].0 == key
    &&& forall|j: int| 0 <= j < i ==> (#[trigger] m[j]).0 != key
}

/// The index of the first entry under `key`; meaningful where `has_key` holds.
pub open spec fn position(m: Fields, key: Seq<char>) -> int {
    choose|i: int| first_at(m, key, i)
}

/// The node that `m` gives for `key`, if any.
pub open spec fn lookup(m: Fields, key: Seq<char>) -> Option<Node> {
    if has_key(m, key) {
        Some(m[position(m, key)].1)
    } else {
        None
    }
}

/// `m` after `key` is set to `node`: an entry that is there keeps its place
/// and takes the new node, a new key goes to the end.
pub open spec fn with_entry(m: Fields, key: Seq<char>, node: Node) -> Fields {
    if has_key(m, key) {
        m.update(position(m, key), (key, node))
    } else {
        m.push((key, node))
    }
}

/// No key occurs twice among the entries of `m`.
pub open spec fn unique_keys(m: Fields) -> bool {
    forall|i: int, j: int| 0 <= i < j < m.len() ==> (#[trigger] m[i]).0 != (#[trigger] m[j]).0
}

/// Every mapping inside `n`, at any depth, has unique keys.
pub open spec fn node_wf(n: Node) -> bool
    decreases n,
{
    match n {
        Node::Scalar(_) => true,
        Node::Sequence(items) => forall|i: int|
            0 <= i < items.len() ==> node_wf(#[trigger] items[i]),
        Node::Mapping(m) => fields_wf(m),
    }
}

/// `m` has unique keys, and so has every mapping nested in it.
pub open spec fn fields_wf(m: Fields) -> bool
    decreases m,
{
    &&& unique_keys(m)
    &&& forall|i: int| 0 <= i < m.len() ==> node_wf((#[trigger] m[i]).1)
}

/// `n` nests sequences and mappings at most `depth` levels deep.
pub open spec fn node_within(n: Node, depth: nat) -> bool
    decreases n,
{
    match n {
        Node::Scalar(_) => true,
        Node::Sequence(items) => depth > 0 && forall|i: int|
            0 <= i < items.len() ==> node_within(#[trigger] items[i], (depth - 1) as nat),
        Node::Mapping(m) => fields_within(m, depth),
    }
}

/// The mapping `m`, itself one level, nests at most `depth` levels deep.
pub open spec fn fields_within(m: Fields, depth: nat) -> bool
    decreases m,
{
    depth > 0 && forall|i: int|
        0 <= i < m.len() ==> node_within((#[trigger] m[i]).1, (depth - 1) as nat)
}

/// Among the first `n` entries of `m`, if one stands under `key`, one is the first.
proof fn lemma_first_exists(m: Fields, key: Seq<char>, n: int)
    requires
        0 <= n < m.len(),
        m[n].0 == key,
    ensures
        exists|i: int| first_at(m, key, i),
    decreases n,
{
    if forall|j: int| 0 <= j < n ==> (#[trigger] m[j]).0 != key {
        assert(first_at(m, key, n));
    } else {
        let j: int = choose|j: int| 0 <= j < n && (#[trigger] m[j]).0 == key;
        lemma_first_exists(m, key, j);
    }
}

/// Where `key` occurs, `position` is its first index.
pub proof fn lemma_position(m: Fields, key: Seq<char>)
    requires
        has_key(m, key),
    ensures
        first_at(m, key, position(m, key)),
{
    let n: int = choose|i: int| 0 <= i < m.len() && #[trigger] m[i].0 == key;
    lemma_first_exists(m, key, n);
}

/// The first index of a key is determined: whatever index is first, `position` is it.
pub proof fn lemma_position_is(m: Fields, key: Seq<char>, i: int)
    requires
        first_at(m, key, i),
    ensures
        has_key(m, key),
        position(m, key) == i,
        lookup(m, key) == Some(m[i].1),
{
}

/// A key that no entry holds is not looked up.
pub proof fn lemma_absent(m: Fields, key: Seq<char>)
    requires
        forall|j: int| 0 <= j < m.len() ==> (#[trigger] m[j]).0 != key,
    ensures
        !has_key(m, key),
        lookup(m, key) is None,
{
}

/// Setting a key makes it look up the new node.
pub proof fn lemma_with_entry_same(m: Fields, key: Seq<char>, node: Node)
    ensures
        has_key(with_entry(m, key, node), key),
        lookup(with_entry(m, key, node), key) == Some(node),
{
    let after = with_entry(m, key, node);
    if has_key(m, key) {
        lemma_position(m, key);
        let p: int = position(m, key);
        lemma_position_is(after, key, p);
    } else {
        lemma_position_is(after, key, m.len() as int);
    }
}

/// Setting a key leaves what every other key looks up as it was.
pub proof fn lemma_with_entry_other(m: Fields, key: Seq<char>, node: Node, other: Seq<char>)
    requires
        other != key,
    ensures
        has_key(with_entry(m, key, node), other) == has_key(m, other),
        lookup(with_entry(m, key, node), other) == lookup(m, other),
{
    let after = with_entry(m, key, node);
    if has_key(m, key) {
        lemma_position(m, key);
    }
    assert forall|j: int| 0 <= j < m.len() implies {
        &&& (#[trigger] after[j]).0 == m[j].0
        &&& m[j].0 == other ==> after[j] == m[j]
    } by {}
    if has_key(m, other) {
        lemma_position(m, other);
        let q: int = position(m, other);
        lemma_position_is(after, other, q);
    } else {
        lemma_absent(after, other);
    }
}

/// What a well-formed mapping looks up is well formed.
pub proof fn lemma_lookup_wf(m: Fields, key: Seq<char>)
    requires
        fields_wf(m),
    ensures
        lookup(m, key) matches Some(n) ==> node_wf(n),
{
    if has_key(m, key) {
        lemma_position(m, key);
    }
}

/// Setting a key to a well-formed node keeps a mapping well formed.
pub proof fn lemma_with_entry_wf(m: Fields, key: Seq<char>, node: Node)
    requires
        fields_wf(m),
        node_wf(node),
    ensures
        fields_wf(with_entry(m, key, node)),
{
    if has_key(m, key) {
        lemma_position(m, key);
    }
}

/// What a mapping looks up once an entry is added at its end.
pub proof fn lemma_lookup_push(m: Fields, entry: (Seq<char>, Node), key: Seq<char>)
    ensures
        lookup(m.push(entry), key) == if has_key(m, key) {
            lookup(m, key)
        } else if entry.0 == key {
            Some(entry.1)
        } else {
            None
        },
{
    let after = m.push(entry);
    if has_key(m, key) {
        lemma_position(m, key);
        let p: int = position(m, key);
        lemma_position_is(after, key, p);
    } else if entry.0 == key {
        lemma_position_is(after, key, m.len() as int);
    } else {
        lemma_absent(after, key);
    }
}

/// The entries of a mapping with unique keys, but for the last, have unique
/// keys too, and none of them stands under the key of the last.
pub proof fn lemma_unique_drop_last(m: Fields)
    requires
        unique_keys(m),
        m.len() > 0,
    ensures
        unique_keys(m.drop_last()),
        !has_key(m.drop_last(), m.last().0),
        m =~= m.drop_last().push(m.last()),
{
}

/// What a mapping of bounded nesting looks up nests one level less.
pub proof fn lemma_lookup_within(m: Fields, key: Seq<char>, depth: nat)
    requires
        fields_within(m, depth),
    ensures
        depth > 0,
        lookup(m, key) matches Some(n) ==> node_within(n, (depth - 1) as nat),
{
    if has_key(m, key) {
        lemma_position(m, key);
    }
}

/// Setting a key to a node that nests one level less keeps the nesting of a
/// mapping bounded.
pub proof fn lemma_with_entry_within(m: Fields, key: Seq<char>, node: Node, depth: nat)
    requires
        fields_within(m, depth),
        node_within(node, (depth - 1) as nat),
    ensures
        fields_within(with_entry(m, key, node), depth),
{
    if has_key(m, key) {
        lemma_position(m, key);
    }
}

} // verus!
