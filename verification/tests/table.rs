use sbom_licenses::entity::{License, SbomNode};
use sbom_licenses::table::Table;

fn license(id: u128, text: &str) -> License {
    License { id, text: text.to_string() }
}

#[test]
fn insert_adds_new_keys_at_the_end() {
    let mut table: Table<License> = Table::new();
    assert_eq!(table.len(), 0);
    assert!(table.insert(license(1, "MIT")));
    assert!(table.insert(license(2, "Apache-2.0")));
    assert_eq!(table.len(), 2);
    assert_eq!(table.get(0).text, "MIT");
    assert_eq!(table.get(1).text, "Apache-2.0");
}

#[test]
fn insert_skips_a_taken_key_and_keeps_the_first() {
    let mut table: Table<License> = Table::new();
    assert!(table.insert(license(1, "first")));
    assert!(!table.insert(license(1, "second")));
    assert_eq!(table.len(), 1);
    assert_eq!(table.get(0).text, "first");
}

#[test]
fn position_finds_by_key_only() {
    let mut table: Table<SbomNode> = Table::new();
    table.insert(SbomNode { sbom_id: 1, node_id: "a".to_string(), name: "x".to_string() });
    table.insert(SbomNode { sbom_id: 1, node_id: "b".to_string(), name: "y".to_string() });
    table.insert(SbomNode { sbom_id: 2, node_id: "a".to_string(), name: "z".to_string() });
    let probe = |sbom_id, node_id: &str| SbomNode { sbom_id, node_id: node_id.to_string(), name: String::new() };
    assert_eq!(table.position(&probe(1, "a")), Some(0));
    assert_eq!(table.position(&probe(1, "b")), Some(1));
    assert_eq!(table.position(&probe(2, "a")), Some(2));
    assert_eq!(table.position(&probe(2, "b")), None);
}

#[test]
fn insert_all_writes_in_order_and_twice_is_once() {
    let batch = || vec![license(3, "c"), license(1, "a"), license(3, "again"), license(2, "b")];
    let mut table: Table<License> = Table::new();
    table.insert(license(2, "kept"));
    table.insert_all(batch());
    assert_eq!(table.len(), 3);
    let texts: Vec<String> = (0..3).map(|i| table.get(i).text.clone()).collect();
    assert_eq!(texts, vec!["kept", "c", "a"]);
    table.insert_all(batch());
    assert_eq!(table.len(), 3);
    let rows = table.into_rows();
    assert_eq!(rows.iter().map(|r| r.id).collect::<Vec<u128>>(), vec![2, 3, 1]);
}
