use pipedream::token_cache::{jwt_claim_times, TokenCache};

#[test]
fn lookup_on_empty_cache_misses() {
    let cache = TokenCache::new();
    assert_eq!(cache.lookup("acme", "web", 1000), None);
}

#[test]
fn lookup_serves_unexpired_tokens_only() {
    let mut cache = TokenCache::new();
    cache.insert("acme", "web", 2000, "tok-1".to_string());

    assert_eq!(cache.lookup("acme", "web", 1999), Some("tok-1".to_string()));
    assert_eq!(cache.lookup("acme", "web", 2000), None);
    assert_eq!(cache.lookup("acme", "web", 2001), None);
    assert_eq!(cache.lookup("acme", "api", 1000), None);
    assert_eq!(cache.lookup("other", "web", 1000), None);
}

#[test]
fn insert_replaces_the_entry_of_a_key() {
    let mut cache = TokenCache::new();
    cache.insert("acme", "web", 2000, "tok-1".to_string());
    cache.insert("acme", "api", 3000, "tok-2".to_string());
    cache.insert("acme", "web", 5000, "tok-3".to_string());

    assert_eq!(cache.lookup("acme", "web", 2500), Some("tok-3".to_string()));
    assert_eq!(cache.lookup("acme", "api", 2500), Some("tok-2".to_string()));
}

#[test]
fn jwt_claims_are_backdated_and_short_lived() {
    let (iat, exp) = jwt_claim_times(10_000);
    assert_eq!(iat, 9_940);
    assert_eq!(exp, 10_540);
}
