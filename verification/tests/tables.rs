use plugin_boundary::table::ModuleTable;

fn filled() -> ModuleTable<u32> {
    let mut table = ModuleTable::new();
    assert_eq!(table.insert("b".to_string(), 2), None);
    assert_eq!(table.insert("a".to_string(), 1), None);
    assert_eq!(table.insert("c".to_string(), 3), None);
    table
}

#[test]
fn a_new_table_is_empty() {
    let table: ModuleTable<u32> = ModuleTable::new();
    assert_eq!(table.len(), 0);
    assert_eq!(table.get(&"a".to_string()), None);
    assert!(table.into_entries().is_empty());
}

#[test]
fn entries_stay_in_the_order_entered() {
    let table = filled();
    assert_eq!(table.len(), 3);
    assert_eq!(
        table.into_entries(),
        vec![("b".to_string(), 2), ("a".to_string(), 1), ("c".to_string(), 3)]
    );
}

#[test]
fn get_finds_what_was_entered() {
    let table = filled();
    assert_eq!(table.get(&"a".to_string()), Some(&1));
    assert_eq!(table.get(&"b".to_string()), Some(&2));
    assert_eq!(table.get(&"c".to_string()), Some(&3));
    assert_eq!(table.get(&"".to_string()), None);
    assert_eq!(table.get(&"ab".to_string()), None);
}

#[test]
fn entering_an_id_again_replaces_its_module_in_place() {
    let mut table = filled();
    assert_eq!(table.insert("a".to_string(), 10), Some(1));
    assert_eq!(table.len(), 3);
    assert_eq!(table.get(&"a".to_string()), Some(&10));
    assert_eq!(table.get(&"b".to_string()), Some(&2));
    assert_eq!(
        table.into_entries(),
        vec![("b".to_string(), 2), ("a".to_string(), 10), ("c".to_string(), 3)]
    );
}

#[test]
fn entering_the_last_id_again_replaces_it() {
    let mut table = filled();
    assert_eq!(table.insert("c".to_string(), 30), Some(3));
    assert_eq!(table.insert("b".to_string(), 20), Some(2));
    assert_eq!(
        table.into_entries(),
        vec![("b".to_string(), 20), ("a".to_string(), 1), ("c".to_string(), 30)]
    );
}

#[test]
fn no_id_is_held_twice() {
    let mut table = ModuleTable::new();
    for round in 0..4u32 {
        for id in ["x", "y", "x", "z", "y"] {
            table.insert(id.to_string(), round);
        }
    }
    let mut ids: Vec<String> = table.into_entries().into_iter().map(|entry| entry.0).collect();
    assert_eq!(ids, vec!["x", "y", "z"]);
    ids.dedup();
    assert_eq!(ids.len(), 3);
}

#[test]
fn a_copy_holds_the_same_entries() {
    let table = filled();
    let copy = table.clone();
    assert_eq!(copy, table);
    assert_eq!(copy.into_entries(), table.into_entries());
}
