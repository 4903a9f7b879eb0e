use mmtk_pypy::registry::RegistryError;
use mmtk_pypy::registry::RootRegistry;
use mmtk_pypy::root_cache::RootSlotCache;

#[test]
fn two_registrations_sum_their_slot_counts() {
    let mut reg = RootRegistry::new();
    assert!(reg.register(0xa000, vec![0x1000, 0x1008]).is_ok());
    assert!(reg.register(0xb000, vec![0x2000]).is_ok());
    assert_eq!(reg.count(), 3);
    reg.unregister(0xa000);
    assert_eq!(reg.count(), 1);
    assert!(!reg.contains(0xa000));
    assert!(reg.contains(0xb000));
    assert_eq!(reg.n_entries(), 1);
    assert_eq!(reg.slots_for(0xb000), Some(&vec![0x2000]));
    assert_eq!(reg.slots_for(0xa000), None);
}

#[test]
fn unregister_is_idempotent() {
    let mut reg = RootRegistry::new();
    assert!(reg.register(0xa000, vec![1, 2, 3]).is_ok());
    assert!(reg.register(0xb000, vec![4]).is_ok());
    reg.unregister(0xa000);
    let count_after_first = reg.count();
    let entries_after_first = reg.n_entries();
    reg.unregister(0xa000);
    assert_eq!(reg.count(), count_after_first);
    assert_eq!(reg.n_entries(), entries_after_first);
    assert!(reg.contains(0xb000));
}

#[test]
fn unregistering_an_absent_handle_is_a_noop() {
    let mut reg = RootRegistry::new();
    reg.unregister(0xdead);
    assert_eq!(reg.count(), 0);
    assert_eq!(reg.n_entries(), 0);
}

#[test]
fn duplicate_registration_is_refused() {
    let mut reg = RootRegistry::new();
    assert!(reg.register(0xa000, vec![1]).is_ok());
    let second = reg.register(0xa000, vec![2, 3]);
    assert_eq!(second, Err(RegistryError::DuplicateRegistration));
    assert_eq!(reg.count(), 1);
    assert_eq!(reg.slots_for(0xa000), Some(&vec![1]));
}

#[test]
fn drained_cache_registers_in_insertion_order() {
    let mut cache = RootSlotCache::new();
    cache.record(0x10);
    cache.record(0x20);
    let mut reg = RootRegistry::new();
    let before = reg.count();
    let slots = cache.drain().expect("two slots were recorded");
    assert!(reg.register(0xc000, slots).is_ok());
    assert_eq!(reg.slots_for(0xc000), Some(&vec![0x10, 0x20]));
    assert_eq!(reg.count(), before + 2);
}

#[test]
fn snapshot_enumerates_every_slot_in_registration_order() {
    let mut reg = RootRegistry::new();
    assert!(reg.register(0xa000, vec![0x1000, 0x1008]).is_ok());
    assert!(reg.register(0xb000, vec![0x2000]).is_ok());
    assert_eq!(reg.snapshot_for_scan(), vec![0x1000, 0x1008, 0x2000]);
    reg.unregister(0xa000);
    assert_eq!(reg.snapshot_for_scan(), vec![0x2000]);
}
