use sckitndi::delegate::DelegateTable;

#[test]
fn registered_handler_is_found_until_removed() {
    let mut table: DelegateTable<&'static str> = DelegateTable::new();
    assert_eq!(table.len(), 0);
    let a = table.register("first").unwrap();
    let b = table.register("second").unwrap();
    assert_ne!(a, b);
    assert_eq!(table.len(), 2);
    assert_eq!(table.lookup(a), Some(&"first"));
    assert_eq!(table.lookup(b), Some(&"second"));
    assert_eq!(table.remove(a), Some("first"));
    assert_eq!(table.lookup(a), None);
    assert_eq!(table.remove(a), None);
    assert_eq!(table.lookup(b), Some(&"second"));
    assert_eq!(table.len(), 1);
}

#[test]
fn identities_are_never_handed_out_twice() {
    let mut table: DelegateTable<u8> = DelegateTable::new();
    let a = table.register(1).unwrap();
    assert_eq!(a, 0);
    assert_eq!(table.remove(a), Some(1));
    let b = table.register(2).unwrap();
    assert_eq!(b, 1);
    assert_eq!(table.lookup(a), None);
    assert_eq!(table.lookup(b), Some(&2));
}

#[test]
fn unknown_identity_finds_nothing() {
    let mut table: DelegateTable<u8> = DelegateTable::new();
    assert_eq!(table.lookup(0), None);
    assert_eq!(table.lookup(u64::MAX), None);
    assert_eq!(table.remove(3), None);
    let id = table.register(9).unwrap();
    assert_eq!(table.lookup(id + 1), None);
}
