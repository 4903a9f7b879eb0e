use mmtk_pypy::facade::AllocationKind;
use mmtk_pypy::facade::BarrierSelector;
use mmtk_pypy::facade::CollectorFacade;
use mmtk_pypy::facade::GatewayError;
use mmtk_pypy::facade::PlanKind;
use mmtk_pypy::facade::RefKind;
use mmtk_pypy::mutator::BarrierEvent;
use mmtk_pypy::root_cache::RootSlotCache;

const DEFAULT_HEAP: usize = 0x0400_0000;

fn initialized_facade() -> CollectorFacade {
    let mut f = CollectorFacade::new();
    f.initialize();
    f
}

#[test]
fn configuration_closes_at_initialization() {
    let mut f = CollectorFacade::new();
    assert!(!f.is_initialized());
    assert!(f.set_plan(PlanKind::MarkSweep));
    assert!(f.set_heap_bounds(1024, 4096));
    assert!(f.set_option(String::from("threads"), String::from("4")));
    assert!(f.set_options_bulk(String::from("threads=4 plan=MarkSweep")));
    f.initialize();
    assert!(f.is_initialized());
    assert!(!f.set_plan(PlanKind::NoGC));
    assert!(!f.set_heap_bounds(1024, 4096));
    assert!(!f.set_option(String::from("threads"), String::from("8")));
    assert!(!f.set_options_bulk(String::from("threads=8")));
}

#[test]
fn empty_option_name_is_refused() {
    let mut f = CollectorFacade::new();
    assert!(!f.set_option(String::new(), String::from("x")));
}

#[test]
fn bad_heap_bounds_are_refused() {
    let mut f = CollectorFacade::new();
    assert!(!f.set_heap_bounds(0, 4096));
    assert!(!f.set_heap_bounds(4096, 1024));
    assert!(!f.set_heap_bounds(1, usize::MAX));
}

#[test]
fn equal_bounds_reserve_a_fixed_heap() {
    let mut f = CollectorFacade::new();
    assert!(f.set_heap_bounds(8192, 8192));
    f.initialize();
    assert_eq!(f.total_bytes(), 8192);
}

#[test]
fn dynamic_bounds_reserve_the_maximum() {
    let mut f = CollectorFacade::new();
    assert!(f.set_heap_bounds(1024, 65536));
    f.initialize();
    assert_eq!(f.total_bytes(), 65536);
}

#[test]
fn unconfigured_heap_gets_the_default_size() {
    let f = initialized_facade();
    assert_eq!(f.total_bytes(), DEFAULT_HEAP);
    assert_eq!(f.used_bytes(), 0);
    assert_eq!(f.free_bytes(), DEFAULT_HEAP);
    assert_eq!(f.last_heap_address(), f.starting_heap_address() + DEFAULT_HEAP);
}

#[test]
fn binding_before_initialization_is_refused() {
    let mut f = CollectorFacade::new();
    assert_eq!(f.bind_mutator(), Err(GatewayError::NotInitialized));
    assert_eq!(
        f.allocate(1, 16, 8, 0, AllocationKind::Standard),
        Err(GatewayError::NotInitialized)
    );
}

#[test]
fn bound_mutator_allocates_aligned_nonnull_memory() {
    let mut f = initialized_facade();
    let h = f.bind_mutator().expect("collector is initialized");
    assert!(h >= 1);
    let addr = f
        .allocate(h, 16, 8, 0, AllocationKind::Standard)
        .expect("16 bytes fit in a fresh heap");
    assert!(addr != 0);
    assert_eq!(addr % 8, 0);
    assert_eq!(f.used_bytes(), 16);
    assert!(f.destroy_mutator(h).is_ok());
    assert_eq!(
        f.allocate(h, 16, 8, 0, AllocationKind::Standard),
        Err(GatewayError::InvalidHandle)
    );
    let h2 = f.bind_mutator().expect("collector is initialized");
    let addr2 = f
        .allocate(h2, 8, 8, 0, AllocationKind::Standard)
        .expect("the destroyed handle left the heap intact");
    assert!(addr2 >= addr + 16);
}

#[test]
fn allocation_respects_offset_correction() {
    let mut f = initialized_facade();
    let h = f.bind_mutator().unwrap();
    let addr = f.allocate(h, 32, 16, 8, AllocationKind::Standard).unwrap();
    assert_eq!((addr + 8) % 16, 0);
}

#[test]
fn ranges_of_two_callers_do_not_overlap() {
    let mut f = initialized_facade();
    let h1 = f.bind_mutator().unwrap();
    let h2 = f.bind_mutator().unwrap();
    let a1 = f.allocate(h1, 24, 8, 0, AllocationKind::Standard).unwrap();
    let a2 = f.allocate(h2, 40, 8, 0, AllocationKind::Standard).unwrap();
    let a3 = f.allocate(h1, 8, 8, 0, AllocationKind::Standard).unwrap();
    assert!(a1 + 24 <= a2);
    assert!(a2 + 40 <= a3);
}

#[test]
fn exhausted_heap_reports_out_of_memory() {
    let mut f = CollectorFacade::new();
    assert!(f.set_heap_bounds(64, 64));
    f.initialize();
    let h = f.bind_mutator().unwrap();
    assert_eq!(
        f.allocate(h, 128, 8, 0, AllocationKind::LargeObject),
        Err(GatewayError::OutOfMemory)
    );
    assert_eq!(f.used_bytes(), 0);
    assert!(f.allocate(h, 32, 8, 0, AllocationKind::Standard).is_ok());
    assert!(f.allocate(h, 32, 8, 0, AllocationKind::Standard).is_ok());
    assert_eq!(
        f.allocate(h, 8, 8, 0, AllocationKind::Standard),
        Err(GatewayError::OutOfMemory)
    );
}

#[test]
fn write_barrier_pre_and_post_must_pair_by_slot() {
    let mut f = initialized_facade();
    let h = f.bind_mutator().unwrap();
    assert!(f.write_pre(h, 0x100, 0x108, 0x200).is_ok());
    assert_eq!(
        f.write_pre(h, 0x100, 0x110, 0x200),
        Err(GatewayError::UnpairedBarrier)
    );
    assert_eq!(
        f.write_post(h, 0x100, 0x110, 0x200),
        Err(GatewayError::UnpairedBarrier)
    );
    assert!(f.write_post(h, 0x100, 0x108, 0x200).is_ok());
    assert_eq!(
        f.write_post(h, 0x100, 0x108, 0x200),
        Err(GatewayError::UnpairedBarrier)
    );
}

#[test]
fn slow_path_write_replaces_the_pair() {
    let mut f = initialized_facade();
    let h = f.bind_mutator().unwrap();
    assert!(f.write_slow(h, 0x100, 0x108, 0x200).is_ok());
    assert!(f.write_pre(h, 0x100, 0x108, 0x200).is_ok());
    assert_eq!(
        f.write_slow(h, 0x100, 0x108, 0x200),
        Err(GatewayError::UnpairedBarrier)
    );
    assert!(f.write_post(h, 0x100, 0x108, 0x200).is_ok());
}

#[test]
fn probable_write_needs_no_pairing_but_no_open_bracket() {
    let mut f = initialized_facade();
    let h = f.bind_mutator().unwrap();
    assert!(f.probable_write(h, 0x300).is_ok());
    assert!(f.probable_write(h, 0x300).is_ok());
    assert!(f.write_pre(h, 0x100, 0x108, 0x200).is_ok());
    assert_eq!(f.probable_write(h, 0x300), Err(GatewayError::UnpairedBarrier));
}

#[test]
fn array_copy_brackets_the_whole_region() {
    let mut f = initialized_facade();
    let h = f.bind_mutator().unwrap();
    assert!(f.array_copy_pre(h, 0x1000, 0x2000, 2).is_ok());
    assert_eq!(
        f.array_copy_post(h, 0x1000, 0x2000, 3),
        Err(GatewayError::UnpairedBarrier)
    );
    assert!(f.array_copy_post(h, 0x1000, 0x2000, 2).is_ok());
    let events = f.flush_mutator(h).unwrap();
    assert_eq!(
        events,
        vec![
            BarrierEvent::RegionCopyPre {
                src_start: 0x1000,
                src_end: 0x1010,
                dst_start: 0x2000,
                dst_end: 0x2010,
            },
            BarrierEvent::RegionCopyPost {
                src_start: 0x1000,
                src_end: 0x1010,
                dst_start: 0x2000,
                dst_end: 0x2010,
            },
        ]
    );
}

#[test]
fn flush_drains_buffered_events_in_order() {
    let mut f = initialized_facade();
    let h = f.bind_mutator().unwrap();
    assert!(f.write_pre(h, 1, 2, 3).is_ok());
    assert!(f.write_post(h, 1, 2, 3).is_ok());
    assert!(f.post_alloc(h, 0x500, 16, AllocationKind::Standard).is_ok());
    let events = f.flush_mutator(h).unwrap();
    assert_eq!(
        events,
        vec![
            BarrierEvent::WritePre { src: 1, slot: 2, target: 3 },
            BarrierEvent::WritePost { src: 1, slot: 2, target: 3 },
            BarrierEvent::PostAlloc { object: 0x500, size: 16 },
        ]
    );
    assert_eq!(f.flush_mutator(h).unwrap(), vec![]);
}

#[test]
fn flush_mid_store_is_refused() {
    let mut f = initialized_facade();
    let h = f.bind_mutator().unwrap();
    assert!(f.write_pre(h, 1, 2, 3).is_ok());
    assert_eq!(f.flush_mutator(h), Err(GatewayError::UnpairedBarrier));
}

#[test]
fn gateway_calls_check_their_handle() {
    let mut f = initialized_facade();
    assert_eq!(f.write_pre(0, 1, 2, 3), Err(GatewayError::InvalidHandle));
    assert_eq!(f.write_post(7, 1, 2, 3), Err(GatewayError::InvalidHandle));
    assert_eq!(f.flush_mutator(1), Err(GatewayError::InvalidHandle));
    assert_eq!(f.destroy_mutator(1), Err(GatewayError::InvalidHandle));
}

#[test]
fn destroying_one_mutator_leaves_the_other_mid_store() {
    let mut f = initialized_facade();
    let h1 = f.bind_mutator().unwrap();
    let h2 = f.bind_mutator().unwrap();
    assert!(f.write_pre(h2, 1, 2, 3).is_ok());
    assert!(f.destroy_mutator(h1).is_ok());
    assert_eq!(f.write_pre(h2, 1, 4, 5), Err(GatewayError::UnpairedBarrier));
    assert!(f.write_post(h2, 1, 2, 3).is_ok());
}

#[test]
fn code_unit_registration_drains_the_thread_cache() {
    let mut f = CollectorFacade::new();
    let mut cache = RootSlotCache::new();
    cache.record(0x1000);
    cache.record(0x1008);
    assert_eq!(f.register_code_unit(0xa000, &mut cache), Ok(true));
    assert_eq!(cache.len(), 0);
    cache.record(0x2000);
    assert_eq!(f.register_code_unit(0xb000, &mut cache), Ok(true));
    assert_eq!(f.total_root_slots(), 3);
    assert!(f.code_unit_registered(0xa000));
    f.unregister_code_unit(0xa000);
    assert_eq!(f.total_root_slots(), 1);
    assert!(!f.code_unit_registered(0xa000));
    assert!(f.code_unit_registered(0xb000));
    assert_eq!(f.registered_code_units(), 1);
    assert_eq!(f.snapshot_for_scan(), vec![0x2000]);
}

#[test]
fn registering_with_an_empty_cache_does_nothing() {
    let mut f = CollectorFacade::new();
    let mut cache = RootSlotCache::new();
    assert_eq!(f.register_code_unit(0xa000, &mut cache), Ok(false));
    assert!(!f.code_unit_registered(0xa000));
    assert_eq!(f.total_root_slots(), 0);
}

#[test]
fn finalization_candidates_come_back_once_oldest_first() {
    let mut f = CollectorFacade::new();
    f.add_finalization_candidate(0x111, RefKind::Finalizable);
    f.add_finalization_candidate(0x222, RefKind::Finalizable);
    f.add_finalization_candidate(0x333, RefKind::Weak);
    f.add_finalization_candidate(0x444, RefKind::Soft);
    f.add_finalization_candidate(0x555, RefKind::Phantom);
    assert_eq!(f.poll_finalized_object(), Some(0x111));
    assert_eq!(f.poll_finalized_object(), Some(0x222));
    assert_eq!(f.poll_finalized_object(), None);
}

#[test]
fn active_barrier_follows_the_plan() {
    let mut f = CollectorFacade::new();
    assert_eq!(f.active_barrier(), BarrierSelector::NoBarrier);
    assert!(f.set_plan(PlanKind::GenCopy));
    assert_eq!(f.active_barrier(), BarrierSelector::ObjectBarrier);
    assert!(f.set_plan(PlanKind::MarkCompact));
    assert_eq!(f.active_barrier(), BarrierSelector::NoBarrier);
}

#[test]
fn objects_never_move_under_nonmoving_plans() {
    let mut f = CollectorFacade::new();
    assert!(f.will_never_move(0x100));
    assert!(f.set_plan(PlanKind::MarkSweep));
    assert!(f.will_never_move(0x100));
    assert!(f.set_plan(PlanKind::SemiSpace));
    assert!(!f.will_never_move(0x100));
}

#[test]
fn space_and_liveness_queries_follow_the_heap_model() {
    let mut f = initialized_facade();
    let base = f.starting_heap_address();
    assert!(f.is_in_managed_space(base));
    assert!(f.is_in_managed_space(f.last_heap_address() - 1));
    assert!(!f.is_in_managed_space(base - 1));
    assert!(!f.is_mapped_address(base));
    let h = f.bind_mutator().unwrap();
    let addr = f.allocate(h, 16, 8, 0, AllocationKind::Standard).unwrap();
    assert!(f.is_mapped_address(addr));
    assert!(f.is_live_object(addr));
    assert!(!f.is_live_object(addr + 16));
}

#[test]
fn allocation_kind_policy_uses_the_large_object_threshold() {
    let f = CollectorFacade::new();
    let threshold = f.max_non_los_default_alloc_bytes();
    assert_eq!(threshold, 16384);
    assert_eq!(f.classify_allocation(threshold), AllocationKind::LargeObject);
    assert_eq!(f.classify_allocation(threshold - 1), AllocationKind::Standard);
}
