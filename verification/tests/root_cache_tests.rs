use mmtk_pypy::root_cache::RootSlotCache;

#[test]
fn record_then_drain_keeps_insertion_order() {
    let mut cache = RootSlotCache::new();
    cache.record(0x1000);
    cache.record(0x1008);
    cache.record(0x2000);
    assert_eq!(cache.len(), 3);
    let taken = cache.drain();
    assert_eq!(taken, Some(vec![0x1000, 0x1008, 0x2000]));
    assert_eq!(cache.len(), 0);
}

#[test]
fn drain_of_empty_cache_returns_none() {
    let mut cache = RootSlotCache::new();
    assert_eq!(cache.drain(), None);
}

#[test]
fn second_drain_without_records_returns_none() {
    let mut cache = RootSlotCache::new();
    cache.record(0x42);
    assert!(cache.drain().is_some());
    assert_eq!(cache.drain(), None);
}

#[test]
fn recording_after_drain_starts_fresh() {
    let mut cache = RootSlotCache::new();
    cache.record(1);
    cache.record(2);
    let _ = cache.drain();
    cache.record(3);
    assert_eq!(cache.drain(), Some(vec![3]));
}
