use apex::cache::{CacheEntry, InMemoryCache};

#[test]
fn test_set_and_get() {
    let mut cache = InMemoryCache::new();
    cache.set("key1", "value1", None, 0);
    assert_eq!(cache.get("key1", 0), Some("value1".to_string()));
}

#[test]
fn test_delete() {
    let mut cache = InMemoryCache::new();
    cache.set("key1", "value1", None, 0);
    cache.delete("key1");
    assert_eq!(cache.get("key1", 0), None);
}

#[test]
fn set_replaces_older_value() {
    let mut cache = InMemoryCache::default();
    cache.set("k", "old", None, 0);
    cache.set("k", "new", None, 0);
    cache.set("other", "x", None, 0);
    assert_eq!(cache.get("k", 0), Some("new".to_string()));
    cache.delete("k");
    assert_eq!(cache.get("other", 0), Some("x".to_string()));
    assert!(!cache.contains("k", 0));
}

#[test]
fn entries_expire_after_ttl() {
    let mut cache = InMemoryCache::new();
    cache.set("session", "abc", Some(1_000), 5_000);
    assert!(cache.contains("session", 6_000));
    assert_eq!(cache.get("session", 6_001), None);
    // The stale entry is gone, even for an earlier clock.
    assert_eq!(cache.get("session", 5_000), None);
}

#[test]
fn entry_expiry_check() {
    let e = CacheEntry { value: "v".to_string(), expires_at: Some(10) };
    assert!(!e.is_expired(10));
    assert!(e.is_expired(11));
    let forever = CacheEntry { value: "v".to_string(), expires_at: None };
    assert!(!forever.is_expired(i64::MAX));
}
