use mmtk_pypy::binding::{VMActivePlan, MAX_ALIGNMENT, MIN_ALIGNMENT};

#[test]
fn alignment_bounds_are_powers_of_two() {
    assert_eq!(MIN_ALIGNMENT, 8);
    assert_eq!(MAX_ALIGNMENT, 64);
    assert!(MIN_ALIGNMENT.is_power_of_two());
    assert!(MAX_ALIGNMENT.is_power_of_two());
}

#[test]
fn every_thread_counts_as_a_mutator_for_now() {
    assert!(VMActivePlan::is_mutator(0));
    assert!(VMActivePlan::is_mutator(0xdead));
}
