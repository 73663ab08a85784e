use wasi_host::errors::TableError;
use wasi_host::table::Table;

#[test]
fn push_then_get_returns_value() {
    let mut t: Table<u32> = Table::new();
    let h = t.push(41).unwrap();
    assert_eq!(*t.get(h).unwrap(), 41);
    assert!(t.contains(h));
}

#[test]
fn deleted_handle_get_always_fails() {
    let mut t: Table<u32> = Table::new();
    let h = t.push(7).unwrap();
    assert_eq!(t.delete(h).unwrap(), 7);
    assert!(matches!(t.get(h), Err(TableError::NotPresent)));
    // Handles are never reissued: later pushes leave the old handle dead.
    let h2 = t.push(9).unwrap();
    assert_ne!(h2, h);
    assert!(matches!(t.get(h), Err(TableError::NotPresent)));
    let h3 = t.push(10).unwrap();
    assert_ne!(h3, h);
    assert!(matches!(t.get(h), Err(TableError::NotPresent)));
    assert_eq!(t.delete(h2).unwrap(), 9);
    assert!(matches!(t.get(h2), Err(TableError::NotPresent)));
}

#[test]
fn get_never_issued_handle_fails() {
    let t: Table<u32> = Table::new();
    assert!(matches!(t.get(0), Err(TableError::NotPresent)));
    assert!(matches!(t.get(123), Err(TableError::NotPresent)));
}

#[test]
fn parent_deleted_no_earlier_than_children() {
    let mut t: Table<u32> = Table::new();
    let parent = t.push(1).unwrap();
    let child = t.push_child(2, parent).unwrap();
    assert!(matches!(t.delete(parent), Err(TableError::HasChildren)));
    assert!(t.contains(parent));
    assert_eq!(t.delete(child).unwrap(), 2);
    assert_eq!(t.delete(parent).unwrap(), 1);
}

#[test]
fn push_child_of_dead_parent_fails() {
    let mut t: Table<u32> = Table::new();
    let parent = t.push(1).unwrap();
    t.delete(parent).unwrap();
    assert!(matches!(t.push_child(2, parent), Err(TableError::NotPresent)));
}

#[test]
fn get_mut_updates_value() {
    let mut t: Table<u32> = Table::new();
    let h = t.push(5).unwrap();
    *t.get_mut(h) = 6;
    assert_eq!(*t.get(h).unwrap(), 6);
}
