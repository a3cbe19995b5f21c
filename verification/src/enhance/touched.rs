use vstd::prelude::*;
use crate::document::Document;
use crate::enhance::logs::names_view;
use crate::model::{
    Fields, has_key, lemma_lookup_push, lemma_unique_drop_last, lookup, unique_keys,
};

verus! {

/// The touched keys after one more step. To the keys `seen` so far come, in
/// the order of `output`, the top-level keys of `output` whose value is not
/// the one that `input` has under the same key, each once.
pub open spec fn touched(seen: Seq<Seq<char>>, input: Fields, output: Fields) -> Seq<Seq<char>>
    decreases output.len(),
{
    if output.len() == 0 {
        seen
    } else {
        let before = touched(seen, input, output.drop_last());
        let (key, node) = output.last();
        if lookup(input, key) != Some(node) && !before.contains(key) {
            before.push(key)
        } else {
            before
        }
    }
}

/// A key is touched after a step exactly where it was touched before, or the
/// output of the step holds under it a value that the input lacks or holds
/// otherwise.
pub proof fn law_touched_keys(
    seen: Seq<Seq<char>>,
    input: Fields,
    output: Fields,
    key: Seq<char>,
)
    requires
        unique_keys(output),
    ensures
        touched(seen, input, output).contains(key) <==> seen.contains(key) || (has_key(output, key)
            && lookup(output, key) != lookup(input, key)),
    decreases output.len(),
{
    if output.len() > 0 {
        let rest = output.drop_last();
        let (last_key, node) = output.last();
        let before = touched(seen, input, rest);
        lemma_unique_drop_last(output);
        law_touched_keys(seen, input, rest, key);
        lemma_lookup_push(rest, output.last(), key);
        if lookup(input, last_key) != Some(node) && !before.contains(last_key) {
            let after = before.push(last_key);
            assert(after[after.len() - 1] == last_key);
            assert forall|i: int| 0 <= i < before.len() implies after[i] == before[i] by {}
        }
    }
}

/// A step lists no key twice among the touched keys.
pub proof fn law_touched_once(seen: Seq<Seq<char>>, input: Fields, output: Fields)
    requires
        seen.no_duplicates(),
    ensures
        touched(seen, input, output).no_duplicates(),
    decreases output.len(),
{
    if output.len() > 0 {
        law_touched_once(seen, input, output.drop_last());
    }
}

/// Whether `name` is among `names`.
pub fn contains_name(names: &Vec<String>, name: &String) -> (b: bool)
    ensures
        b == names_view(names@).contains(name@),
{
    let mut i: usize = 0;
    while i < names.len()
        invariant
            i <= names.len(),
            forall|j: int| 0 <= j < i ==> (#[trigger] names_view(names@)[j]) != name@,
        decreases names.len() - i,
    {
        if names[i] == *name {
            assert(names_view(names@)[i as int] == name@);
            return true;
        }
        i += 1;
    }
    false
}

/// Adds to `seen` the top-level keys of `output` that `input` lacks or holds
/// with another value.
pub fn extend_touched(seen: &mut Vec<String>, input: &Document, output: &Document)
    ensures
        names_view(final(seen)@) == touched(names_view(old(seen)@), input@, output@),
{
    let mut i: usize = 0;
    while i < output.len()
        invariant
            i <= output@.len(),
            names_view(seen@) == touched(names_view(old(seen)@), input@, output@.take(i as int)),
        decreases output@.len() - i,
    {
        let key = output.key_at(i);
        let node = output.value_at(i);
        let unchanged = match input.get(key.as_str()) {
            Some(previous) => previous.same(node),
            None => false,
        };
        proof {
            let next = output@.take(i + 1);
            assert(next.drop_last() =~= output@.take(i as int));
        }
        if !unchanged && !contains_name(seen, key) {
            seen.push(key.clone());
        }
        i += 1;
    }
    assert(output@.take(i as int) =~= output@);
}

} // verus!
