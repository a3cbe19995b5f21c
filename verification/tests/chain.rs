use clash_verge::document::{Entry, Document, Scalar, Value};
use clash_verge::enhance::chain::{ChainBody, ChainKind, ChainRegistry, ChainUnit, RegistryError};

fn merge_unit(name: &str, patch: Document) -> ChainUnit {
    ChainUnit { name: name.to_string(), body: ChainBody::Merge(patch) }
}

fn script_unit(name: &str, source: &str) -> ChainUnit {
    ChainUnit { name: name.to_string(), body: ChainBody::Script(source.to_string()) }
}

#[test]
fn a_unit_knows_its_kind() {
    assert_eq!(merge_unit("m", Document::new()).kind(), ChainKind::Merge);
    assert_eq!(script_unit("s", "return config").kind(), ChainKind::Script);
}

#[test]
fn a_new_registry_is_empty() {
    let registry = ChainRegistry::new();
    assert_eq!(registry.len(), 0);
    assert!(!registry.contains_name("m"));
}

#[test]
fn units_keep_the_order_in_which_they_come() {
    let mut registry = ChainRegistry::new();
    assert_eq!(registry.push(script_unit("second", "b")), Ok(()));
    assert_eq!(registry.push(merge_unit("first", Document::new())), Ok(()));
    assert_eq!(registry.len(), 2);
    assert_eq!(registry.unit_at(0).name, "second");
    assert_eq!(registry.unit_at(1).name, "first");
    assert!(registry.contains_name("first"));
    assert!(registry.contains_name("second"));
    assert!(!registry.contains_name("third"));
}

#[test]
fn a_name_that_is_taken_is_refused() {
    let mut registry = ChainRegistry::new();
    assert_eq!(registry.push(merge_unit("a", Document::new())), Ok(()));
    assert_eq!(registry.push(script_unit("a", "x")), Err(RegistryError::DuplicateName));
    assert_eq!(registry.len(), 1);
    assert_eq!(registry.unit_at(0).kind(), ChainKind::Merge);
}

#[test]
fn a_malformed_patch_is_refused() {
    let twice = Document::from_entries(
        vec![
            Entry { key: "k".to_string(), value: Value::Scalar(Scalar::Null) },
            Entry { key: "k".to_string(), value: Value::Scalar(Scalar::Null) },
        ],
    );
    let mut registry = ChainRegistry::new();
    assert_eq!(registry.push(merge_unit("bad", twice)), Err(RegistryError::MalformedPatch));
    assert_eq!(registry.len(), 0);
    assert!(!registry.contains_name("bad"));
}

#[test]
fn a_taken_name_is_reported_before_a_malformed_patch() {
    let twice = Document::from_entries(
        vec![
            Entry { key: "k".to_string(), value: Value::Scalar(Scalar::Null) },
            Entry { key: "k".to_string(), value: Value::Scalar(Scalar::Null) },
        ],
    );
    let mut registry = ChainRegistry::new();
    assert_eq!(registry.push(script_unit("a", "x")), Ok(()));
    assert_eq!(registry.push(merge_unit("a", twice)), Err(RegistryError::DuplicateName));
}
