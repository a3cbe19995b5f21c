use clash_verge::document::{Document, Scalar, Value};
use clash_verge::merge::apply_merge;

fn num(i: i64) -> Value {
    Value::Scalar(Scalar::Int(i))
}

fn map(entries: Vec<(&str, Value)>) -> Document {
    let mut m = Document::new();
    for (key, value) in entries {
        m.set(key.to_string(), value);
    }
    m
}

fn sub(entries: Vec<(&str, Value)>) -> Value {
    Value::Mapping(map(entries))
}

#[test]
fn two_merges_in_a_row() {
    let base = map(vec![("a", sub(vec![("x", num(0)), ("z", num(3))]))]);
    let first = map(vec![("a", sub(vec![("x", num(1))]))]);
    let second = map(vec![("a", sub(vec![("y", num(2))]))]);

    let result = apply_merge(&apply_merge(&base, &first), &second);

    let a = result.get("a").unwrap().as_mapping().unwrap();
    assert_eq!(a.len(), 3);
    assert_eq!(a.get("x"), Some(&num(1)));
    assert_eq!(a.get("y"), Some(&num(2)));
    assert_eq!(a.get("z"), Some(&num(3)));
    // entries keep their place, new ones go to the end
    assert_eq!(result, map(vec![("a", sub(vec![("x", num(1)), ("z", num(3)), ("y", num(2))]))]));
}

#[test]
fn mappings_merge_at_every_depth() {
    let base = map(vec![("a", sub(vec![("b", sub(vec![("c", num(1)), ("d", num(2))]))]))]);
    let patch = map(vec![("a", sub(vec![("b", sub(vec![("d", num(20)), ("e", num(30))]))]))]);
    let result = apply_merge(&base, &patch);
    let expected = map(
        vec![("a", sub(vec![("b", sub(vec![("c", num(1)), ("d", num(20)), ("e", num(30))]))]))],
    );
    assert_eq!(result, expected);
}

#[test]
fn sequences_are_replaced_not_joined() {
    let base = map(vec![("rules", Value::Sequence(vec![num(1), num(2)]))]);
    let patch = map(vec![("rules", Value::Sequence(vec![num(2), num(3)]))]);
    let result = apply_merge(&base, &patch);
    assert_eq!(result.get("rules"), Some(&Value::Sequence(vec![num(2), num(3)])));
    assert_eq!(result, patch);
}

#[test]
fn a_scalar_replaces_a_mapping() {
    let base = map(vec![("a", sub(vec![("x", num(1))]))]);
    let patch = map(vec![("a", num(7))]);
    assert_eq!(apply_merge(&base, &patch), map(vec![("a", num(7))]));
}

#[test]
fn a_mapping_replaces_a_scalar() {
    let base = map(vec![("a", num(7))]);
    let patch = map(vec![("a", sub(vec![("x", num(1))]))]);
    assert_eq!(apply_merge(&base, &patch), patch);
}

#[test]
fn merge_is_not_symmetric() {
    let a = map(vec![("k", num(1)), ("only-a", num(0))]);
    let b = map(vec![("k", num(2))]);
    assert_eq!(apply_merge(&a, &b).get("k"), Some(&num(2)));
    assert_eq!(apply_merge(&b, &a).get("k"), Some(&num(1)));
    assert_ne!(apply_merge(&a, &b), apply_merge(&b, &a));
}

#[test]
fn keys_outside_the_patch_stay() {
    let base = map(vec![("keep", num(1)), ("change", num(2))]);
    let patch = map(vec![("change", num(3)), ("add", num(4))]);
    let result = apply_merge(&base, &patch);
    assert_eq!(result, map(vec![("keep", num(1)), ("change", num(3)), ("add", num(4))]));
}

#[test]
fn the_empty_patch_changes_nothing() {
    let base = map(vec![("a", sub(vec![("x", num(1))]))]);
    assert_eq!(apply_merge(&base, &Document::new()), base);
    assert_eq!(apply_merge(&Document::new(), &base), base);
}

#[test]
fn merge_mapping_works_in_place() {
    let mut base = map(vec![("a", sub(vec![("x", num(0))]))]);
    let patch = map(vec![("a", sub(vec![("y", num(1))])), ("b", num(2))]);
    let expected = apply_merge(&base, &patch);
    base.merge_mapping(&patch);
    assert_eq!(base, expected);
    assert_eq!(base, map(vec![("a", sub(vec![("x", num(0)), ("y", num(1))])), ("b", num(2))]));
}

#[test]
fn merge_leaves_its_arguments_alone() {
    let base = map(vec![("a", num(1))]);
    let patch = map(vec![("a", num(2))]);
    let _ = apply_merge(&base, &patch);
    assert_eq!(base, map(vec![("a", num(1))]));
    assert_eq!(patch, map(vec![("a", num(2))]));
}
