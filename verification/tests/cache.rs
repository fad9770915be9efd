use kivinge::cache::{fresh, Cache, DEFAULT_EXPIRY_MS};
use kivinge::lru::LruCache;
use std::cell::Cell;

#[test]
fn freshness_is_age_at_most_ttl() {
    assert!(fresh(1_000, 1_000, 60_000));
    assert!(fresh(1_000, 61_000, 60_000));
    assert!(!fresh(1_000, 61_001, 60_000));
    assert!(fresh(5_000, 1_000, 60_000));
    assert!(!fresh(0, 0, -1));
    assert!(fresh(i64::MAX, i64::MIN, 0));
    assert!(!fresh(i64::MIN, i64::MAX, i64::MAX));
}

#[test]
fn lookup_finds_fresh_entries_only() {
    let mut cache: Cache<String> = Cache::new(60_000);
    assert_eq!(cache.ttl(), 60_000);
    assert_eq!(cache.lookup(7, 0), None);
    cache.insert(7, "seven".to_string(), 1_000);
    assert_eq!(cache.lookup(7, 1_000), Some(&"seven".to_string()));
    assert_eq!(cache.lookup(7, 61_000), Some(&"seven".to_string()));
    assert_eq!(cache.lookup(7, 61_001), None);
    assert_eq!(cache.lookup(8, 1_000), None);
    assert_eq!(cache.entry(7).map(|e| e.fetched_at), Some(1_000));
}

#[test]
fn insert_replaces_and_restarts_the_clock() {
    let mut cache: Cache<u32> = Cache::new(10);
    cache.insert(1, 100, 0);
    cache.insert(1, 200, 50);
    assert_eq!(cache.lookup(1, 55), Some(&200));
    assert_eq!(cache.lookup(1, 61), None);
}

#[test]
fn default_cache_lives_sixty_seconds() {
    let cache: Cache<u8> = Cache::default();
    assert_eq!(cache.ttl(), 60_000);
    assert_eq!(DEFAULT_EXPIRY_MS, 60_000);
}

#[test]
fn two_gets_within_ttl_fetch_once() {
    let calls = Cell::new(0u32);
    let mut cache: Cache<String> = Cache::new(60_000);
    let first = cache
        .cached_get(3, 10, || -> Result<String, String> {
            calls.set(calls.get() + 1);
            Ok("value".to_string())
        })
        .map(|v| v.clone());
    assert_eq!(first, Ok("value".to_string()));
    let second = cache
        .cached_get(3, 60_010, || -> Result<String, String> {
            calls.set(calls.get() + 1);
            Ok("other".to_string())
        })
        .map(|v| v.clone());
    assert_eq!(second, Ok("value".to_string()));
    assert_eq!(calls.get(), 1);
}

#[test]
fn get_after_ttl_fetches_again() {
    let calls = Cell::new(0u32);
    let mut cache: Cache<u32> = Cache::new(60_000);
    let fetch = || -> Result<u32, String> {
        calls.set(calls.get() + 1);
        Ok(calls.get())
    };
    assert_eq!(cache.cached_get(1, 0, fetch).map(|v| *v), Ok(1));
    assert_eq!(cache.cached_get(1, 60_000, fetch).map(|v| *v), Ok(1));
    assert_eq!(cache.cached_get(1, 60_001, fetch).map(|v| *v), Ok(2));
    assert_eq!(calls.get(), 2);
    assert_eq!(cache.entry(1).map(|e| e.fetched_at), Some(60_001));
}

#[test]
fn failures_are_not_cached() {
    let calls = Cell::new(0u32);
    let mut cache: Cache<u32> = Cache::new(60_000);
    let flaky = || -> Result<u32, String> {
        calls.set(calls.get() + 1);
        if calls.get() < 3 {
            Err(format!("attempt {}", calls.get()))
        } else {
            Ok(42)
        }
    };
    assert_eq!(cache.cached_get(9, 0, flaky).map(|v| *v), Err("attempt 1".to_string()));
    assert!(cache.entry(9).is_none());
    assert_eq!(cache.cached_get(9, 1, flaky).map(|v| *v), Err("attempt 2".to_string()));
    assert_eq!(cache.cached_get(9, 2, flaky).map(|v| *v), Ok(42));
    assert_eq!(cache.cached_get(9, 3, flaky).map(|v| *v), Ok(42));
    assert_eq!(calls.get(), 3);
}

#[test]
fn a_failed_refresh_keeps_the_stale_entry_stale() {
    let mut cache: Cache<u32> = Cache::new(10);
    cache.insert(1, 5, 0);
    let failed = cache.cached_get(1, 100, || -> Result<u32, String> { Err("down".to_string()) });
    assert_eq!(failed.map(|v| *v), Err("down".to_string()));
    assert_eq!(cache.entry(1).map(|e| (e.value, e.fetched_at)), Some((5, 0)));
    assert_eq!(cache.lookup(1, 100), None);
}

#[test]
fn keys_are_independent() {
    let mut cache: Cache<u32> = Cache::new(100);
    cache.insert(1, 10, 0);
    cache.insert(2, 20, 90);
    assert_eq!(cache.lookup(1, 150), None);
    assert_eq!(cache.lookup(2, 150), Some(&20));
}

#[test]
fn lru_holds_at_most_its_capacity() {
    let mut cache: LruCache<u32> = LruCache::new(3);
    assert_eq!(cache.capacity(), 3);
    for key in 0..10u64 {
        cache.put(key, key as u32 * 2);
        assert!(cache.len() <= 3);
    }
    assert_eq!(cache.len(), 3);
    assert!(!cache.contains(6));
    assert_eq!(cache.peek(7), Some(&14));
    assert_eq!(cache.peek(8), Some(&16));
    assert_eq!(cache.peek(9), Some(&18));
}

#[test]
fn lru_evicts_the_least_recently_used() {
    let mut cache: LruCache<&'static str> = LruCache::new(2);
    cache.put(1, "one");
    cache.put(2, "two");
    assert_eq!(cache.get(1), Some(&"one"));
    cache.put(3, "three");
    assert!(cache.contains(1));
    assert!(!cache.contains(2));
    assert!(cache.contains(3));
    assert_eq!(cache.get(2), None);
}

#[test]
fn lru_peek_does_not_count_as_use() {
    let mut cache: LruCache<u8> = LruCache::new(2);
    cache.put(1, 1);
    cache.put(2, 2);
    assert_eq!(cache.peek(1), Some(&1));
    cache.put(3, 3);
    assert!(!cache.contains(1));
    assert!(cache.contains(2));
}

#[test]
fn lru_put_replaces_under_the_same_key() {
    let mut cache: LruCache<u8> = LruCache::new(2);
    cache.put(1, 1);
    cache.put(2, 2);
    cache.put(1, 9);
    assert_eq!(cache.len(), 2);
    assert_eq!(cache.peek(1), Some(&9));
    cache.put(3, 3);
    assert!(!cache.contains(2));
    assert_eq!(cache.peek(1), Some(&9));
}

#[test]
fn lru_of_capacity_zero_stores_nothing() {
    let mut cache: LruCache<u8> = LruCache::new(0);
    cache.put(1, 1);
    assert_eq!(cache.len(), 0);
    assert_eq!(cache.get(1), None);
}

#[test]
fn lru_cached_get_fetches_once_while_resident() {
    let calls = Cell::new(0u32);
    let mut cache: LruCache<Vec<u8>> = LruCache::new(10);
    let fetch = || -> Result<Vec<u8>, String> {
        calls.set(calls.get() + 1);
        Ok(vec![1, 2, 3])
    };
    assert_eq!(cache.cached_get(5, fetch).map(|v| v.clone()), Ok(vec![1, 2, 3]));
    assert_eq!(cache.cached_get(5, fetch).map(|v| v.clone()), Ok(vec![1, 2, 3]));
    assert_eq!(calls.get(), 1);
    for key in 100..110u64 {
        cache.put(key, vec![]);
    }
    assert_eq!(cache.cached_get(5, fetch).map(|v| v.clone()), Ok(vec![1, 2, 3]));
    assert_eq!(calls.get(), 2);
}

#[test]
fn lru_cached_get_does_not_store_failures() {
    let mut cache: LruCache<u8> = LruCache::new(2);
    let failed = cache.cached_get(1, || -> Result<u8, &'static str> { Err("no") });
    assert_eq!(failed.map(|v| *v), Err("no"));
    assert_eq!(cache.len(), 0);
    let fetched = cache.cached_get(1, || -> Result<u8, &'static str> { Ok(4) });
    assert_eq!(fetched.map(|v| *v), Ok(4));
}
