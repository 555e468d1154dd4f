use ghost_tx::fee::FeeLevel;

#[test]
fn exceeds_threshold_at_the_edges() {
    assert!(!FeeLevel::from_u64(0).exceeds_threshold());
    assert!(!FeeLevel::from_u64(100_000_000).exceeds_threshold());
    assert!(FeeLevel::from_u64(100_000_001).exceeds_threshold());
    assert!(FeeLevel::from_u64(u64::MAX).exceeds_threshold());
    assert!(FeeLevel::from_limbs([0, 1, 0, 0]).exceeds_threshold());
    assert!(FeeLevel::from_limbs([0, 0, 0, u64::MAX]).exceeds_threshold());
}

#[test]
fn constructors_store_limbs() {
    assert_eq!(FeeLevel::from_u64(42).limbs, [42, 0, 0, 0]);
    assert_eq!(FeeLevel::from_limbs([1, 2, 3, 4]).limbs, [1, 2, 3, 4]);
}
