use si_layer_cache::config::CacheConfig;
use si_layer_cache::error::LayerDbError;
use si_layer_cache::hybrid_cache::{Cache, CacheRead};

fn hit(r: CacheRead<String>) -> Option<String> {
    match r {
        CacheRead::Hit(v) => Some(v),
        _ => None,
    }
}

#[test]
fn insert_then_get_hits() {
    let mut c: Cache<String> = Cache::with_capacity(100);
    c.insert("a".to_string(), "alpha".to_string(), 10);
    assert_eq!(hit(c.get(&"a".to_string())), Some("alpha".to_string()));
    assert!(c.contains(&"a".to_string()));
    assert!(matches!(c.get(&"b".to_string()), CacheRead::Miss));
}

#[test]
fn raw_bytes_are_decoded_then_promoted_in_place() {
    let mut c: Cache<String> = Cache::with_capacity(100);
    c.insert_raw_bytes("k".to_string(), b"\"v\"".to_vec());
    let bytes = match c.get(&"k".to_string()) {
        CacheRead::Undecoded(b) => b,
        _ => panic!("expected raw bytes"),
    };
    assert_eq!(bytes, b"\"v\"".to_vec());
    let decoded: Option<String> = serde_json::from_slice(&bytes).ok();
    c.settle_decoded(&"k".to_string(), decoded);
    assert_eq!(hit(c.get(&"k".to_string())), Some("v".to_string()));
}

#[test]
fn undecodable_bytes_are_dropped() {
    let mut c: Cache<String> = Cache::with_capacity(100);
    c.insert_raw_bytes("k".to_string(), b"not json".to_vec());
    c.settle_decoded(&"k".to_string(), None);
    assert!(!c.contains(&"k".to_string()));
    assert!(matches!(c.get(&"k".to_string()), CacheRead::Miss));
}

#[test]
fn settle_leaves_decoded_entries_alone() {
    let mut c: Cache<String> = Cache::with_capacity(100);
    c.insert("k".to_string(), "kept".to_string(), 4);
    c.settle_decoded(&"k".to_string(), Some("other".to_string()));
    assert_eq!(hit(c.get(&"k".to_string())), Some("kept".to_string()));
}

#[test]
fn oldest_entries_leave_first_when_over_budget() {
    let mut c: Cache<String> = Cache::with_capacity(10);
    c.insert("a".to_string(), "a".to_string(), 4);
    c.insert("b".to_string(), "b".to_string(), 4);
    c.insert("c".to_string(), "c".to_string(), 4);
    assert!(!c.contains(&"a".to_string()));
    assert!(c.contains(&"b".to_string()));
    assert!(c.contains(&"c".to_string()));
}

#[test]
fn entry_heavier_than_budget_is_not_admitted() {
    let mut c: Cache<String> = Cache::with_capacity(10);
    c.insert("a".to_string(), "a".to_string(), 4);
    c.insert("a".to_string(), "huge".to_string(), 11);
    assert!(!c.contains(&"a".to_string()));
    c.insert("b".to_string(), "b".to_string(), 10);
    assert!(c.contains(&"b".to_string()));
}

#[test]
fn replacing_a_key_does_not_double_count() {
    let mut c: Cache<String> = Cache::with_capacity(10);
    c.insert("a".to_string(), "a".to_string(), 6);
    c.insert("a".to_string(), "a2".to_string(), 6);
    c.insert("b".to_string(), "b".to_string(), 4);
    assert!(c.contains(&"a".to_string()));
    assert!(c.contains(&"b".to_string()));
}

#[test]
fn remove_and_close_empty_the_cache() {
    let mut c: Cache<String> = Cache::with_capacity(10);
    c.insert("a".to_string(), "a".to_string(), 1);
    c.insert("b".to_string(), "b".to_string(), 1);
    c.remove(&"a".to_string());
    assert!(!c.contains(&"a".to_string()));
    c.remove(&"missing".to_string());
    assert!(c.contains(&"b".to_string()));
    c.close();
    assert!(!c.contains(&"b".to_string()));
}

#[test]
fn cache_sized_from_config() {
    let cfg = CacheConfig::default().memory_reserved_percent(0);
    let mut c: Cache<String> = Cache::with_memory(&cfg, 8).expect("valid config");
    c.insert("a".to_string(), "a".to_string(), 8);
    assert!(c.contains(&"a".to_string()));
    c.insert("b".to_string(), "b".to_string(), 1);
    assert!(!c.contains(&"a".to_string()));
    let bad = CacheConfig::default().memory_reserved_percent(150);
    assert!(matches!(Cache::<String>::with_memory(&bad, 8), Err(LayerDbError::InvalidPercentage)));
    assert!(Cache::<String>::new(&CacheConfig::default()).is_ok());
}

#[test]
fn same_raw_bytes_twice_change_nothing() {
    let mut c: Cache<String> = Cache::with_capacity(10);
    c.insert("a".to_string(), "a".to_string(), 3);
    c.insert_raw_bytes("k".to_string(), vec![1, 2, 3, 4]);
    c.insert_raw_bytes("k".to_string(), vec![1, 2, 3, 4]);
    // 3 + 4 charged, so 3 more still fit beside both.
    c.insert("b".to_string(), "b".to_string(), 3);
    assert!(c.contains(&"a".to_string()));
    assert!(c.contains(&"k".to_string()));
    assert!(c.contains(&"b".to_string()));
}
