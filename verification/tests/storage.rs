use upgradeable_proxy::Storage;

#[test]
fn new_storage_holds_nothing() {
    let storage = Storage::new();
    assert_eq!(storage.get(0), None);
    assert!(!storage.contains(0));
    assert!(!storage.contains(u32::MAX));
}

#[test]
fn a_cell_holds_what_was_written_last() {
    let mut storage = Storage::new();
    storage.set(3, vec![1, 2]);
    assert_eq!(storage.get(3), Some(&vec![1, 2]));
    storage.set(3, vec![9]);
    assert_eq!(storage.get(3), Some(&vec![9]));
    assert!(storage.contains(3));
}

#[test]
fn a_write_leaves_the_other_cells_alone() {
    let mut storage = Storage::new();
    storage.set(3, vec![1, 2]);
    storage.set(4, vec![5]);
    assert_eq!(storage.get(3), Some(&vec![1, 2]));
    assert_eq!(storage.get(4), Some(&vec![5]));
    assert_eq!(storage.get(5), None);
}

#[test]
fn an_empty_cell_is_a_cell() {
    let mut storage = Storage::new();
    storage.set(0, Vec::new());
    assert!(storage.contains(0));
    assert_eq!(storage.get(0), Some(&Vec::new()));
}
