use lease_relay::lease::{LeaseStore, Resolution, LEASE_DURATION_MILLIS};

#[test]
fn announce_then_immediate_resolve_is_fresh() {
    let mut store = LeaseStore::new();
    store.announce("192.168.0.17".to_string(), 1_000);
    let r = store.resolve(1_000);
    assert_eq!(r, Resolution::Fresh { address: "192.168.0.17".to_string() });
}

#[test]
fn resolve_before_any_announce_is_unknown() {
    let store = LeaseStore::new();
    assert_eq!(store.resolve(0), Resolution::Unknown);
    assert_eq!(store.resolve(123_456_789), Resolution::Unknown);
}

#[test]
fn resolve_at_lease_expiry_is_stale() {
    let mut store = LeaseStore::new();
    store.announce("10.1.2.3".to_string(), 0);
    assert_eq!(
        store.resolve(LEASE_DURATION_MILLIS),
        Resolution::Stale { expired_at_millis: LEASE_DURATION_MILLIS }
    );
    assert_eq!(
        store.resolve(LEASE_DURATION_MILLIS - 1),
        Resolution::Fresh { address: "10.1.2.3".to_string() }
    );
}

#[test]
fn resolve_long_after_expiry_is_still_stale() {
    let mut store = LeaseStore::new();
    store.announce("10.1.2.3".to_string(), 7_000);
    assert_eq!(
        store.resolve(7_000 + 10 * LEASE_DURATION_MILLIS),
        Resolution::Stale { expired_at_millis: 7_000 + LEASE_DURATION_MILLIS }
    );
}

#[test]
fn last_announce_wins() {
    let mut store = LeaseStore::new();
    store.announce("10.0.0.1".to_string(), 0);
    store.announce("10.0.0.2".to_string(), 5);
    assert_eq!(store.resolve(5), Resolution::Fresh { address: "10.0.0.2".to_string() });
}

#[test]
fn example_timeline() {
    let mut store = LeaseStore::new();
    store.announce("10.0.0.5".to_string(), 0);
    assert_eq!(store.resolve(10_000), Resolution::Fresh { address: "10.0.0.5".to_string() });
    assert_eq!(store.resolve(51_000), Resolution::Stale { expired_at_millis: 50_000 });
}

#[test]
fn announce_reports_address_change() {
    let mut store = LeaseStore::new();
    assert!(store.announce("10.0.0.5".to_string(), 0));
    assert!(!store.announce("10.0.0.5".to_string(), 100));
    assert!(store.announce("10.0.0.6".to_string(), 200));
}

#[test]
fn repeated_announce_extends_the_lease() {
    let mut store = LeaseStore::new();
    store.announce("10.0.0.5".to_string(), 0);
    store.announce("10.0.0.5".to_string(), 40_000);
    assert_eq!(store.resolve(60_000), Resolution::Fresh { address: "10.0.0.5".to_string() });
}

#[test]
fn announce_now_then_resolve_now_is_fresh() {
    let mut store = LeaseStore::new();
    let changed = store.announce_now("172.16.0.9".to_string());
    assert!(changed);
    assert_eq!(store.resolve_now(), Resolution::Fresh { address: "172.16.0.9".to_string() });
}

#[test]
fn resolve_now_before_any_announce_is_unknown() {
    let store = LeaseStore::new();
    assert_eq!(store.resolve_now(), Resolution::Unknown);
}
