use debounced::encoding::{
    init_mask, integrator_mask, integrator_max, integrator_one, state_mask, zero,
};
use debounced::policy::{max_count_fits, policy_fits};

#[test]
fn masks_and_scaled_counts() {
    assert_eq!(0, zero());
    assert_eq!(1, state_mask());
    assert_eq!(2, init_mask());
    assert_eq!(4, integrator_one());
    assert_eq!(0xffff_ffff_ffff_fffc, integrator_mask());
    assert_eq!(12, integrator_max(3));
    assert_eq!(252, integrator_max(63));
}

#[test]
fn count_must_fit_width_after_shift() {
    assert!(max_count_fits(8, 63));
    assert!(!max_count_fits(8, 64));
    assert!(max_count_fits(16, 0x3fff));
    assert!(!max_count_fits(16, 0x4000));
    assert!(max_count_fits(64, (1u64 << 62) - 1));
    assert!(!max_count_fits(64, 1u64 << 62));
}

#[test]
fn policy_needs_count_above_one_and_width_in_range() {
    assert!(policy_fits(8, 3));
    assert!(!policy_fits(8, 1));
    assert!(!policy_fits(8, 0));
    assert!(!policy_fits(8, 64));
    assert!(!policy_fits(65, 3));
    assert!(!policy_fits(1, 3));
    assert!(!policy_fits(4, 4));
    assert!(policy_fits(5, 7));
}
