use arcane_vote::table::Table;

#[test]
fn insert_get_remove() {
    let mut t: Table<String, u64> = Table::new();
    assert_eq!(t.len(), 0);
    t.insert("a".to_string(), 1);
    t.insert("b".to_string(), 2);
    t.insert("a".to_string(), 3);
    assert_eq!(t.len(), 2);
    assert_eq!(t.get(&"a".to_string()), Some(&3));
    assert_eq!(t.get(&"c".to_string()), None);
    assert!(t.contains_key(&"b".to_string()));
    assert_eq!(t.remove(&"b".to_string()), Some(2));
    assert!(!t.contains_key(&"b".to_string()));
    assert_eq!(t.remove(&"b".to_string()), None);
    assert_eq!(t.len(), 1);
}

#[test]
fn integer_keys() {
    let mut t: Table<u64, bool> = Table::new();
    t.insert(7, true);
    assert_eq!(t.get(&7), Some(&true));
    assert_eq!(t.get(&8), None);
}
