use std_reference_basic::bytes::bytes_eq;
use std_reference_basic::Table;

#[test]
fn bytes_eq_compares_length_and_content() {
    assert!(bytes_eq(&vec![], &vec![]));
    assert!(bytes_eq(&vec![1, 2, 3], &vec![1, 2, 3]));
    assert!(!bytes_eq(&vec![1, 2, 3], &vec![1, 2]));
    assert!(!bytes_eq(&vec![1, 2], &vec![1, 2, 3]));
    assert!(!bytes_eq(&vec![1, 2, 3], &vec![1, 2, 4]));
    assert!(!bytes_eq(&vec![0, 2, 3], &vec![1, 2, 3]));
    assert!(!bytes_eq(&vec![], &vec![0]));
}

#[test]
fn empty_table_holds_nothing() {
    let table: Table<u64> = Table::new();
    assert_eq!(table.get(&vec![]), None);
    assert_eq!(table.get(&vec![1]), None);
}

#[test]
fn table_insert_then_get() {
    let mut table: Table<u64> = Table::new();
    table.insert(vec![1], 10);
    table.insert(vec![2], 20);
    table.insert(vec![], 30);
    assert_eq!(table.get(&vec![1]), Some(10));
    assert_eq!(table.get(&vec![2]), Some(20));
    assert_eq!(table.get(&vec![]), Some(30));
    assert_eq!(table.get(&vec![3]), None);
    assert_eq!(table.get(&vec![1, 2]), None);
}

#[test]
fn table_insert_overwrites_in_place() {
    let mut table: Table<bool> = Table::new();
    table.insert(vec![7], true);
    table.insert(vec![8], true);
    table.insert(vec![7], false);
    assert_eq!(table.get(&vec![7]), Some(false));
    assert_eq!(table.get(&vec![8]), Some(true));
    table.insert(vec![7], true);
    table.insert(vec![8], false);
    assert_eq!(table.get(&vec![7]), Some(true));
    assert_eq!(table.get(&vec![8]), Some(false));
}
