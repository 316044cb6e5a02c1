use fimo_utils::library_cache::{retain_in_use, LibraryCache};
use std::sync::Arc;

#[test]
fn retain_keeps_entries_with_other_holders() {
    let items = vec!["a", "b", "c", "d"];
    let counts = [(1, 0), (2, 0), (1, 1), (1, 0)];
    assert_eq!(retain_in_use(items, &counts), vec!["b", "c"]);
    let none: Vec<u8> = Vec::new();
    assert!(retain_in_use(none, &[]).is_empty());
}

#[test]
fn eviction_drops_libraries_no_module_uses() {
    let mut cache = LibraryCache::new();
    let first = cache.insert(String::from("liba.so"));
    let second = cache.insert(String::from("libb.so"));
    let third = cache.insert(String::from("libc.so"));
    assert_eq!(*first, "liba.so");
    assert_eq!(cache.len(), 3);
    assert_eq!(Arc::strong_count(&second), 2);

    drop(first);
    let weak = Arc::downgrade(&third);
    drop(third);
    cache.evict_module_cache();
    // `liba.so` was held by the cache alone, `libc.so` still has a weak holder.
    assert_eq!(cache.len(), 2);

    drop(weak);
    cache.evict_module_cache();
    assert_eq!(cache.len(), 1);
    assert_eq!(Arc::strong_count(&second), 2);

    drop(second);
    cache.evict_module_cache();
    assert_eq!(cache.len(), 0);
}
