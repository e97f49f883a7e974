use callisto_engines::registry::TableRegistry;
use callisto_engines::rewrite::{holds, pending_registrations};

fn strings(items: &[&str]) -> Vec<String> {
    items.iter().map(|s| s.to_string()).collect()
}

#[test]
fn every_unregistered_reference_is_pending_once() {
    let registry = TableRegistry::new();
    let heads = strings(&["./t.parquet", "u.parquet", "./t.parquet"]);
    assert_eq!(pending_registrations(&registry, &heads), strings(&["./t.parquet", "u.parquet"]));
}

#[test]
fn registered_references_are_not_pending() {
    let mut registry = TableRegistry::new();
    assert!(registry.commit("u.parquet"));
    let heads = strings(&["./t.parquet", "u.parquet", "v"]);
    assert_eq!(pending_registrations(&registry, &heads), strings(&["./t.parquet", "v"]));
}

#[test]
fn nothing_is_pending_without_references() {
    let registry = TableRegistry::new();
    assert!(pending_registrations(&registry, &Vec::new()).is_empty());
}

#[test]
fn holds_finds_exact_strings_only() {
    let items = strings(&["a", "b"]);
    assert!(holds(&items, &"a".to_string()));
    assert!(holds(&items, &"b".to_string()));
    assert!(!holds(&items, &"ab".to_string()));
    assert!(!holds(&Vec::new(), &"a".to_string()));
}
