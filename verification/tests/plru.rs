use holochain_wasmer::deserialized_cache::{CacheKey, DeserializedModuleCache};
use holochain_wasmer::plru::MicroCache;
use std::sync::Arc;

#[test]
fn new_tracker_is_cold() {
    let cache = MicroCache::new();
    assert_eq!(cache.len(), 64);
    for i in 0..64 {
        assert!(!cache.is_hot(i));
    }
}

#[test]
fn inflation() {
    let mut cache = MicroCache::new();
    cache.touch(0);
    for i in 1..64 {
        assert!(cache.is_hot(i - 1));
        cache.touch(i);
    }
    // every line was hot, so they all turn cold and the first is picked
    assert_eq!(cache.replace(), 0);
    for i in 0..64 {
        assert!(!cache.is_hot(i));
    }
}

#[test]
fn replace_picks_the_first_cold_line() {
    let mut cache = MicroCache::new();
    assert_eq!(cache.replace(), 0);
    assert_eq!(cache.replace(), 0);
    cache.touch(0);
    assert_eq!(cache.replace(), 1);
    cache.touch(1);
    cache.touch(3);
    assert_eq!(cache.replace(), 2);
    cache.trash(0);
    assert_eq!(cache.replace(), 0);
}

#[test]
fn replace_touch_trash() {
    let mut cache = MicroCache::new();
    for _ in 0..1000 {
        let r = cache.replace();
        assert!(!cache.is_hot(r));
        cache.touch(r);
        assert!(cache.is_hot(r));
        cache.trash(r);
        assert!(!cache.is_hot(r));
    }
}

fn key(n: u8) -> CacheKey {
    [n; 32]
}

#[test]
fn put_then_get() {
    let mut cache: DeserializedModuleCache<String> = DeserializedModuleCache::new();
    assert_eq!(cache.get_item(&key(1)), None);
    let item = cache.put_item(key(1), Arc::new("one".to_string()));
    assert_eq!(*item, "one");
    assert_eq!(cache.get_item(&key(1)).as_deref(), Some(&"one".to_string()));
    assert_eq!(cache.plru_key(&key(1)), 0);
    cache.put_item(key(1), Arc::new("uno".to_string()));
    assert_eq!(cache.get_item(&key(1)).as_deref(), Some(&"uno".to_string()));
}

#[test]
fn full_cache_evicts_the_stale_entry() {
    let mut cache: DeserializedModuleCache<u32> = DeserializedModuleCache::new();
    for n in 0..64u8 {
        cache.put_item(key(n), Arc::new(n as u32));
        assert_eq!(cache.plru_key(&key(n)), n as usize);
    }
    for n in 0..64u8 {
        assert!(cache.get_item(&key(n)).is_some());
    }
    // every line is hot: the tracker inflates and line 0 is reused
    cache.put_item(key(64), Arc::new(64));
    assert_eq!(cache.get_item(&key(0)), None);
    assert_eq!(cache.plru_key(&key(64)), 0);
    // key 1 was just used, so the next entry takes line 2
    assert_eq!(cache.get_item(&key(1)).as_deref(), Some(&1));
    cache.put_item(key(65), Arc::new(65));
    assert_eq!(cache.get_item(&key(2)), None);
    assert_eq!(cache.get_item(&key(1)).as_deref(), Some(&1));
    assert_eq!(cache.plru_key(&key(65)), 2);
}
