use mages_bridge::Category;
use mages_bridge::SubscriptionRegistry;

#[test]
fn ids_start_at_one_and_strictly_increase() {
    let mut reg = SubscriptionRegistry::new();
    let a = reg.register(Category::Timeline);
    let b = reg.register(Category::Typing);
    let c = reg.register(Category::RoomList);
    assert_eq!(a, 1);
    assert_eq!(b, 2);
    assert_eq!(c, 3);
    assert!(a > 0 && b > a && c > b);
}

#[test]
fn id_is_not_reused_after_unregister() {
    let mut reg = SubscriptionRegistry::new();
    let a = reg.register(Category::Timeline);
    assert!(reg.unregister(a));
    let b = reg.register(Category::Timeline);
    assert_ne!(a, b);
    assert!(b > a);
}

#[test]
fn unregister_is_idempotent() {
    let mut reg = SubscriptionRegistry::new();
    let a = reg.register(Category::Connection);
    assert!(reg.is_live(a));
    assert!(reg.unregister(a));
    assert!(!reg.is_live(a));
    assert!(!reg.unregister(a));
    assert!(!reg.unregister(a));
}

#[test]
fn unregister_unknown_id_returns_false() {
    let mut reg = SubscriptionRegistry::new();
    assert!(!reg.unregister(0));
    assert!(!reg.unregister(42));
}

#[test]
fn drain_empties_the_registry_and_hands_back_entries() {
    let mut reg = SubscriptionRegistry::new();
    let a = reg.register(Category::Timeline);
    let b = reg.register(Category::Receipts);
    assert_eq!(reg.live_count(), 2);
    let drained = reg.drain();
    assert_eq!(drained.len(), 2);
    assert_eq!(drained[0].0, a);
    assert_eq!(drained[0].1, Category::Timeline);
    assert_eq!(drained[1].0, b);
    assert_eq!(drained[1].1, Category::Receipts);
    assert_eq!(reg.live_count(), 0);
    // The counter keeps going: no reuse even after a global shutdown.
    let c = reg.register(Category::Timeline);
    assert_eq!(c, 3);
}

#[test]
fn unregister_leaves_other_subscriptions_alone() {
    let mut reg = SubscriptionRegistry::new();
    let a = reg.register(Category::Timeline);
    let b = reg.register(Category::Typing);
    let c = reg.register(Category::CallInbox);
    assert!(reg.unregister(b));
    assert!(reg.is_live(a));
    assert!(!reg.is_live(b));
    assert!(reg.is_live(c));
    assert_eq!(reg.live_count(), 2);
}
