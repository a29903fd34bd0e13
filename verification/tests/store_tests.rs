use auth_engine::redis::{RecordValue, RedisService};

fn text(v: &RecordValue) -> &str {
    match v {
        RecordValue::Text(s) => s.as_str(),
        _ => panic!("expected a text record"),
    }
}

#[test]
fn records_are_readable_until_their_expiry() {
    let mut store = RedisService::new();
    let key = "recovery:k1".to_string();
    store.set_temporarily(key.clone(), RecordValue::Text("a@b.c".to_string()), 5, 1000);
    let got = store.get(&key, 1000).unwrap();
    assert_eq!(text(&got), "a@b.c");
    assert!(store.get(&key, 1299).is_some());
    // Gone at the expiry instant and ever after.
    assert!(store.get(&key, 1300).is_none());
    assert!(store.get(&key, 5000).is_none());
}

#[test]
fn absent_keys_read_as_nothing() {
    let store = RedisService::new();
    assert!(store.get(&"nope".to_string(), 0).is_none());
}

#[test]
fn overwriting_resets_the_time_to_live() {
    let mut store = RedisService::new();
    let key = "2fa:bob".to_string();
    store.set_temporarily(key.clone(), RecordValue::Marker, 5, 1000);
    // Rewritten shortly before it would lapse: the window restarts.
    store.set_temporarily(key.clone(), RecordValue::Marker, 5, 1299);
    assert!(store.get(&key, 1598).is_some());
    assert!(store.get(&key, 1599).is_none());
}

#[test]
fn removal_deletes_exactly_the_named_key() {
    let mut store = RedisService::new();
    let k1 = "register:1".to_string();
    let k2 = "register:2".to_string();
    store.set_temporarily(k1.clone(), RecordValue::Marker, 10, 0);
    store.set_temporarily(k2.clone(), RecordValue::Marker, 10, 0);
    store.remove(&k1);
    assert!(store.get(&k1, 1).is_none());
    assert!(store.get(&k2, 1).is_some());
    // Removing an absent key is harmless.
    store.remove(&k1);
    assert!(store.get(&k2, 1).is_some());
}

#[test]
fn set_without_ttl_does_not_lapse() {
    let mut store = RedisService::new();
    let key = "k".to_string();
    store.set(key.clone(), RecordValue::Text("v".to_string()));
    assert!(store.get(&key, u64::MAX - 1).is_some());
}
