use vstd::prelude::*;
use crate::document::{Document, Value};
use crate::model::{
    Fields, Node, fields_wf, fields_within, lemma_absent, lemma_lookup_push, lemma_lookup_wf,
    lemma_lookup_within, lemma_with_entry_other, lemma_with_entry_same, lemma_with_entry_wf,
    lemma_with_entry_within, lookup, unique_keys, with_entry,
};

verus! {

/// What a key holds after a patch node is merged over what it held: two
/// mappings merge entry by entry; in every other case the patch node replaces
/// what was there.
pub open spec fn merge_node(current: Option<Node>, patch: Node) -> Node
    decreases patch,
{
    match (current, patch) {
        (Some(Node::Mapping(a)), Node::Mapping(b)) => Node::Mapping(merged(a, b)),
        _ => patch,
    }
}

/// `base` after `patch` is merged over it: the entries of the patch are set
/// one after the other, in the order of the patch, each to the merge of the
/// patch node over what the key held before.
pub open spec fn merged(base: Fields, patch: Fields) -> Fields
    decreases patch,
{
    if patch.len() == 0 {
        base
    } else {
        let before = merged(base, patch.drop_last());
        let (key, node) = patch.last();
        with_entry(before, key, merge_node(lookup(before, key), node))
    }
}

/// Merging is decided key by key. A key that the patch does not hold keeps
/// what the base has under it. A key that the patch holds gets the merge of
/// the patch node over what the base has: the merge of the two mappings where
/// both hold one, the patch node itself in every other case.
pub proof fn law_merge_lookup(base: Fields, patch: Fields, key: Seq<char>)
    requires
        unique_keys(patch),
    ensures
        lookup(merged(base, patch), key) == match lookup(patch, key) {
            Some(node) => Some(merge_node(lookup(base, key), node)),
            None => lookup(base, key),
        },
    decreases patch.len(),
{
    if patch.len() > 0 {
        let rest = patch.drop_last();
        let (last_key, node) = patch.last();
        let before = merged(base, rest);
        assert(patch =~= rest.push(patch.last()));
        law_merge_lookup(base, rest, key);
        lemma_lookup_push(rest, patch.last(), key);
        if key == last_key {
            lemma_absent(rest, key);
            lemma_with_entry_same(before, key, merge_node(lookup(before, key), node));
        } else {
            let set = merge_node(lookup(before, last_key), node);
            lemma_with_entry_other(before, last_key, set, key);
        }
    } else {
        lemma_absent(patch, key);
    }
}

/// Where base and patch both hold a mapping under a key, the result holds
/// under it the merge of the two.
pub proof fn law_merge_recurses(
    base: Fields,
    patch: Fields,
    key: Seq<char>,
    below: Fields,
    above: Fields,
)
    requires
        unique_keys(patch),
        lookup(base, key) == Some(Node::Mapping(below)),
        lookup(patch, key) == Some(Node::Mapping(above)),
    ensures
        lookup(merged(base, patch), key) == Some(Node::Mapping(merged(below, above))),
{
    law_merge_lookup(base, patch, key);
}

/// Where the patch holds a scalar or a sequence under a key, the result holds
/// exactly that under it, whatever the base held: nothing is joined.
pub proof fn law_merge_replaces(base: Fields, patch: Fields, key: Seq<char>, node: Node)
    requires
        unique_keys(patch),
        lookup(patch, key) == Some(node),
        node is Scalar || node is Sequence,
    ensures
        lookup(merged(base, patch), key) == Some(node),
{
    law_merge_lookup(base, patch, key);
}

/// Merging one well-formed mapping over another gives a well-formed mapping.
pub proof fn lemma_merged_wf(base: Fields, patch: Fields)
    requires
        fields_wf(base),
        fields_wf(patch),
    ensures
        fields_wf(merged(base, patch)),
    decreases patch,
{
    if patch.len() > 0 {
        let rest = patch.drop_last();
        let (key, node) = patch.last();
        lemma_merged_wf(base, rest);
        let before = merged(base, rest);
        lemma_lookup_wf(before, key);
        match (lookup(before, key), node) {
            (Some(Node::Mapping(a)), Node::Mapping(b)) => {
                lemma_merged_wf(a, b);
            },
            _ => {},
        }
        lemma_with_entry_wf(before, key, merge_node(lookup(before, key), node));
    }
}

/// Merging keeps the nesting bounded: the result nests no deeper than the
/// deeper of the two.
pub proof fn lemma_merged_within(base: Fields, patch: Fields, depth: nat)
    requires
        fields_within(base, depth),
        fields_within(patch, depth),
    ensures
        fields_within(merged(base, patch), depth),
    decreases patch,
{
    if patch.len() > 0 {
        let rest = patch.drop_last();
        let (key, node) = patch.last();
        lemma_merged_within(base, rest, depth);
        let before = merged(base, rest);
        lemma_lookup_within(before, key, depth);
        match (lookup(before, key), node) {
            (Some(Node::Mapping(a)), Node::Mapping(b)) => {
                lemma_merged_within(a, b, (depth - 1) as nat);
            },
            _ => {},
        }
        lemma_with_entry_within(before, key, merge_node(lookup(before, key), node), depth);
    }
}

/// The merge of `patch` over `base` as a document of its own; `base` stays
/// as it is.
pub fn apply_merge(base: &Document, patch: &Document) -> (r: Document)
    ensures
        r@ == merged(base@, patch@),
        base.wf() && patch.wf() ==> r.wf(),
{
    let mut output = base.clone();
    output.merge_mapping(patch);
    output
}

impl Document {
    /// Merges `patch` over this mapping. Where both hold a mapping under one
    /// key, the two are merged in turn, at every depth; where the patch holds
    /// a scalar or a sequence, or the key holds no mapping yet, the value of
    /// the patch replaces what was there. Sequences are never joined.
    pub fn merge_mapping(&mut self, patch: &Document)
        ensures
            final(self)@ == merged(old(self)@, patch@),
            old(self).wf() && patch.wf() ==> final(self).wf(),
        decreases patch@,
    {
        proof {
            if self.wf() && patch.wf() {
                lemma_merged_wf(self@, patch@);
            }
        }
        let mut i: usize = 0;
        while i < patch.len()
            invariant
                i <= patch@.len(),
                self@ == merged(old(self)@, patch@.take(i as int)),
            decreases patch@.len() - i,
        {
            let key = patch.key_at(i);
            let node = patch.value_at(i);
            let ghost before = self@;
            let value = match (self.get(key.as_str()), node.as_mapping()) {
                (Some(Value::Mapping(current)), Some(inner)) => {
                    let mut joined = current.clone();
                    joined.merge_mapping(inner);
                    Value::Mapping(joined)
                },
                _ => node.clone(),
            };
            assert(value@ == merge_node(lookup(before, key@), node@));
            self.set(key.clone(), value);
            proof {
                let next = patch@.take(i + 1);
                assert(next.drop_last() =~= patch@.take(i as int));
            }
            i += 1;
        }
        assert(patch@.take(i as int) =~= patch@);
    }
}

} // verus!
