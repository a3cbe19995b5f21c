use clash_verge::document::{Entry, Document, Scalar, Value};
use clash_verge::validate::MAX_NESTING;

fn num(i: i64) -> Value {
    Value::Scalar(Scalar::Int(i))
}

fn text(s: &str) -> Value {
    Value::Scalar(Scalar::Str(s.to_string()))
}

fn entry(key: &str, value: Value) -> Entry {
    Entry { key: key.to_string(), value }
}

fn nested(levels: usize) -> Document {
    let mut m = Document::new();
    let mut i = 1;
    while i < levels {
        let mut outer = Document::new();
        outer.set("inner".to_string(), Value::Mapping(m));
        m = outer;
        i += 1;
    }
    m
}

#[test]
fn new_mapping_is_empty() {
    let m = Document::new();
    assert_eq!(m.len(), 0);
    assert!(!m.contains_key("a"));
    assert!(m.get("a").is_none());
}

#[test]
fn set_adds_new_keys_at_the_end() {
    let mut m = Document::new();
    m.set("b".to_string(), num(1));
    m.set("a".to_string(), num(2));
    assert_eq!(m.len(), 2);
    assert_eq!(m.key_at(0), "b");
    assert_eq!(m.key_at(1), "a");
    assert_eq!(m.value_at(0), &num(1));
    assert_eq!(m.value_at(1), &num(2));
}

#[test]
fn set_overwrites_in_place() {
    let mut m = Document::new();
    m.set("a".to_string(), num(1));
    m.set("b".to_string(), num(2));
    m.set("a".to_string(), text("new"));
    assert_eq!(m.len(), 2);
    assert_eq!(m.key_at(0), "a");
    assert_eq!(m.get("a"), Some(&text("new")));
    assert_eq!(m.get("b"), Some(&num(2)));
}

#[test]
fn get_and_contains_key_agree() {
    let mut m = Document::new();
    m.set("a".to_string(), Value::Scalar(Scalar::Null));
    assert!(m.contains_key("a"));
    assert_eq!(m.get("a"), Some(&Value::Scalar(Scalar::Null)));
    assert!(!m.contains_key("A"));
    assert_eq!(m.get("A"), None);
    assert!(!m.contains_key(""));
}

#[test]
fn get_finds_the_first_of_two_equal_keys() {
    let m = Document::from_entries(vec![entry("a", num(1)), entry("a", num(2))]);
    assert_eq!(m.len(), 2);
    assert_eq!(m.get("a"), Some(&num(1)));
}

#[test]
fn from_entries_keeps_the_order() {
    let m = Document::from_entries(vec![entry("z", num(1)), entry("y", num(2))]);
    assert_eq!(m.key_at(0), "z");
    assert_eq!(m.key_at(1), "y");
    let mut same = Document::new();
    same.set("z".to_string(), num(1));
    same.set("y".to_string(), num(2));
    assert_eq!(m, same);
}

#[test]
fn as_mapping_tells_mappings_from_the_rest() {
    let mut m = Document::new();
    m.set("a".to_string(), num(1));
    let v = Value::Mapping(m.clone());
    assert_eq!(v.as_mapping(), Some(&m));
    assert_eq!(num(1).as_mapping(), None);
    assert_eq!(Value::Sequence(vec![]).as_mapping(), None);
}

#[test]
fn clone_is_deep_and_equal() {
    let mut inner = Document::new();
    inner.set("x".to_string(), Value::Sequence(vec![num(1), text("two")]));
    let mut m = Document::new();
    m.set("inner".to_string(), Value::Mapping(inner));
    let mut copy = m.clone();
    assert_eq!(copy, m);
    copy.set("inner".to_string(), num(0));
    assert_ne!(copy, m);
    assert!(m.get("inner").unwrap().as_mapping().is_some());
}

#[test]
fn equality_is_sensitive_to_order() {
    let mut a = Document::new();
    a.set("x".to_string(), num(1));
    a.set("y".to_string(), num(2));
    let mut b = Document::new();
    b.set("y".to_string(), num(2));
    b.set("x".to_string(), num(1));
    assert_ne!(a, b);
    assert!(!a.same(&b));
    assert!(a.same(&a.clone()));
}

#[test]
fn equality_tells_scalar_kinds_apart() {
    assert_ne!(Scalar::Int(1), Scalar::UInt(1));
    assert_ne!(Scalar::Null, Scalar::Bool(false));
    assert_ne!(Scalar::Str("1".to_string()), Scalar::Int(1));
    assert_eq!(Scalar::Float(1.5f64.to_bits()), Scalar::Float(1.5f64.to_bits()));
    assert_ne!(Scalar::Float(1.5f64.to_bits()), Scalar::Float(2.5f64.to_bits()));
    assert_eq!(Scalar::Str("a".to_string()).clone(), Scalar::Str("a".to_string()));
}

#[test]
fn equality_compares_sequences_item_by_item() {
    let a = Value::Sequence(vec![num(1), num(2)]);
    let b = Value::Sequence(vec![num(1), num(2)]);
    let c = Value::Sequence(vec![num(2), num(1)]);
    let d = Value::Sequence(vec![num(1)]);
    assert_eq!(a, b);
    assert_ne!(a, c);
    assert_ne!(a, d);
    assert_ne!(a, num(1));
    assert_eq!(a.clone(), a);
}

#[test]
fn unique_keys_are_valid() {
    let mut m = Document::new();
    m.set("a".to_string(), num(1));
    m.set("b".to_string(), Value::Sequence(vec![Value::Mapping(Document::new())]));
    assert!(m.has_unique_keys());
    assert!(m.is_valid(MAX_NESTING));
    assert!(Document::new().is_valid(1));
}

#[test]
fn a_repeated_key_is_invalid() {
    let m = Document::from_entries(vec![entry("a", num(1)), entry("b", num(2)), entry("a", num(3))]);
    assert!(!m.has_unique_keys());
    assert!(!m.is_valid(MAX_NESTING));
}

#[test]
fn a_repeated_key_deep_inside_is_invalid() {
    let bad = Document::from_entries(vec![entry("k", num(1)), entry("k", num(1))]);
    let mut m = Document::new();
    m.set("list".to_string(), Value::Sequence(vec![num(0), Value::Mapping(bad)]));
    assert!(m.has_unique_keys());
    assert!(!m.is_valid(MAX_NESTING));
    assert!(!Value::Mapping(m).is_valid(MAX_NESTING));
}

#[test]
fn nesting_is_counted_from_the_outermost_mapping() {
    let m = nested(3);
    assert!(m.is_valid(3));
    assert!(!m.is_valid(2));
    assert!(!m.is_valid(0));
    assert!(!Document::new().is_valid(0));
    assert!(num(1).is_valid(0));
    assert!(!Value::Sequence(vec![]).is_valid(0));
    assert!(Value::Sequence(vec![num(1)]).is_valid(1));
    assert!(!Value::Sequence(vec![Value::Sequence(vec![])]).is_valid(1));
}

#[test]
fn the_nesting_limit_is_enforced() {
    assert_eq!(MAX_NESTING, 128);
    assert!(nested(MAX_NESTING).is_valid(MAX_NESTING));
    assert!(!nested(MAX_NESTING + 1).is_valid(MAX_NESTING));
}
