use bevy_simplenet_events::request_table::RequestTable;

#[test]
fn recorded_request_is_resolved_once() {
    let mut table = RequestTable::new();
    assert_eq!(table.len(), 0);
    assert!(!table.contains(9));
    table.record(9, 2, 3);
    assert!(table.contains(9));
    assert_eq!(table.len(), 1);
    assert_eq!(table.resolve(9), Some((2, 3)));
    assert!(!table.contains(9));
    assert_eq!(table.len(), 0);
    // no request is resolved twice
    assert_eq!(table.resolve(9), None);
}

#[test]
fn resolving_an_absent_request_changes_nothing() {
    let mut table = RequestTable::new();
    table.record(1, 10, 11);
    assert_eq!(table.resolve(2), None);
    assert_eq!(table.len(), 1);
    assert!(table.contains(1));
}

#[test]
fn requests_are_resolved_independently() {
    let mut table = RequestTable::new();
    table.record(1, 10, 11);
    table.record(2, 20, 21);
    table.record(u64::MAX, 30, 31);
    assert_eq!(table.resolve(2), Some((20, 21)));
    assert_eq!(table.resolve(u64::MAX), Some((30, 31)));
    assert_eq!(table.resolve(1), Some((10, 11)));
    assert_eq!(table.len(), 0);
}

#[test]
fn resolved_id_may_be_recorded_again() {
    let mut table = RequestTable::new();
    table.record(5, 1, 2);
    assert_eq!(table.resolve(5), Some((1, 2)));
    table.record(5, 3, 4);
    assert_eq!(table.resolve(5), Some((3, 4)));
}
