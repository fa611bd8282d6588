use volt_credito::token_cache::TokenCache;

#[test]
fn get_within_ttl_returns_the_stored_value() {
    let mut cache = TokenCache::new(3600);
    cache.set("v8_access_token".to_string(), "tok-1".to_string(), 1_000);
    assert_eq!(cache.get("v8_access_token", 1_000), Some("tok-1".to_string()));
    assert_eq!(cache.get("v8_access_token", 4_599), Some("tok-1".to_string()));
}

#[test]
fn get_after_ttl_returns_absent() {
    let mut cache = TokenCache::new(3600);
    cache.set("v8_access_token".to_string(), "tok-1".to_string(), 1_000);
    assert_eq!(cache.get("v8_access_token", 4_600), None);
    assert_eq!(cache.get("v8_access_token", 10_000), None);
}

#[test]
fn invalidate_all_makes_the_next_get_absent() {
    let mut cache = TokenCache::new(3600);
    cache.set("v8_access_token".to_string(), "tok-1".to_string(), 1_000);
    cache.invalidate_all();
    assert_eq!(cache.get("v8_access_token", 1_000), None);
}

#[test]
fn invalidate_drops_one_key_and_keeps_the_others() {
    let mut cache = TokenCache::new(3600);
    cache.set("a".to_string(), "1".to_string(), 0);
    cache.set("b".to_string(), "2".to_string(), 0);
    cache.invalidate("a");
    assert_eq!(cache.get("a", 0), None);
    assert_eq!(cache.get("b", 0), Some("2".to_string()));
}

#[test]
fn set_replaces_the_previous_value_and_refreshes_the_clock() {
    let mut cache = TokenCache::new(100);
    cache.set("k".to_string(), "old".to_string(), 0);
    cache.set("k".to_string(), "new".to_string(), 90);
    assert_eq!(cache.get("k", 150), Some("new".to_string()));
    assert_eq!(cache.get("k", 190), None);
}

#[test]
fn absent_key_reads_absent() {
    let cache = TokenCache::new(3600);
    assert_eq!(cache.get("missing", 0), None);
}
