use vpinball_plugin_api::errors::BridgeError;
use vpinball_plugin_api::subs::SubscriptionTable;

#[test]
fn register_then_dispatch_finds_closure() {
    let mut t: SubscriptionTable<&'static str> = SubscriptionTable::new();
    assert_eq!(t.len(), 0);
    assert!(t.register(1, "start").is_ok());
    assert!(t.register(2, "end").is_ok());
    assert_eq!(t.len(), 2);
    assert_eq!(t.dispatch(1), Some(&"start"));
    assert_eq!(t.dispatch(2), Some(&"end"));
    assert_eq!(t.dispatch(3), None);
}

#[test]
fn double_register_fails_and_keeps_first_entry() {
    let mut t: SubscriptionTable<&'static str> = SubscriptionTable::new();
    assert!(t.register(7, "first").is_ok());
    let second = t.register(7, "second");
    assert_eq!(second, Err(BridgeError::DuplicateSubscription));
    assert_eq!(t.len(), 1);
    assert_eq!(t.dispatch(7), Some(&"first"));
}

#[test]
fn contains_tracks_registrations() {
    let mut t: SubscriptionTable<u64> = SubscriptionTable::new();
    assert!(!t.contains(5));
    t.register(5, 50).unwrap();
    assert!(t.contains(5));
    assert!(!t.contains(6));
}

#[test]
fn unregister_all_returns_entries_in_order_and_empties() {
    let mut t: SubscriptionTable<&'static str> = SubscriptionTable::new();
    t.register(3, "three").unwrap();
    t.register(1, "one").unwrap();
    t.register(2, "two").unwrap();
    let out = t.unregister_all();
    let ids: Vec<u32> = out.iter().map(|s| s.id).collect();
    assert_eq!(ids, vec![3, 1, 2]);
    let closures: Vec<&'static str> = out.iter().map(|s| s.closure).collect();
    assert_eq!(closures, vec!["three", "one", "two"]);
    assert_eq!(t.len(), 0);
}

#[test]
fn unregister_all_is_idempotent_on_empty_table() {
    let mut t: SubscriptionTable<u64> = SubscriptionTable::new();
    assert_eq!(t.unregister_all().len(), 0);
    assert_eq!(t.unregister_all().len(), 0);
    assert_eq!(t.len(), 0);
}

#[test]
fn dispatch_after_unregister_all_is_a_no_op() {
    let mut t: SubscriptionTable<&'static str> = SubscriptionTable::new();
    t.register(1, "one").unwrap();
    t.register(2, "two").unwrap();
    t.unregister_all();
    assert_eq!(t.dispatch(1), None);
    assert_eq!(t.dispatch(2), None);
    assert_eq!(t.dispatch(99), None);
}

#[test]
fn register_again_after_unregister_all_succeeds() {
    let mut t: SubscriptionTable<&'static str> = SubscriptionTable::new();
    t.register(1, "old").unwrap();
    t.unregister_all();
    assert!(t.register(1, "new").is_ok());
    assert_eq!(t.dispatch(1), Some(&"new"));
}
