use cpu_caps::{
    detect_features, features_from_hwcap, needs_os_query, Neon, Runtime, FORCE_DYNAMIC_DETECTION,
    HWCAP_NEON, NEON_MASK,
};

#[test]
fn neon_mask_is_the_registry_bit() {
    assert_eq!(Neon::mask(), NEON_MASK);
    assert_eq!(NEON_MASK, 1 << 0);
}

#[test]
fn hwcap_neon_is_the_platform_bit() {
    assert_eq!(HWCAP_NEON, 1 << 12);
    assert_eq!(HWCAP_NEON, 0x1000);
}

#[test]
fn force_dynamic_detection_is_the_complement_of_neon() {
    assert_eq!(FORCE_DYNAMIC_DETECTION, !NEON_MASK);
    assert_eq!(FORCE_DYNAMIC_DETECTION & Neon::mask(), 0);
    assert_eq!(FORCE_DYNAMIC_DETECTION | NEON_MASK, u32::MAX);
}

#[test]
fn hardware_bit_set_and_static_empty_yields_neon() {
    assert_eq!(detect_features(Runtime::Standard, 0, 0x1000), NEON_MASK);
}

#[test]
fn hardware_bit_unset_and_static_empty_yields_zero() {
    assert_eq!(detect_features(Runtime::Standard, 0, 0x0000), 0);
}

#[test]
fn static_neon_makes_the_query_redundant() {
    assert_eq!(detect_features(Runtime::Standard, NEON_MASK, 0x0000), 0);
    assert!(!needs_os_query(Runtime::Standard, NEON_MASK));
    assert!(!needs_os_query(Runtime::Standard, u32::MAX));
}

#[test]
fn minimal_runtime_never_queries_and_yields_zero() {
    assert!(!needs_os_query(Runtime::Minimal, 0));
    assert_eq!(detect_features(Runtime::Minimal, 0, 0x1000), 0);
    assert_eq!(detect_features(Runtime::Minimal, 0, u64::MAX), 0);
    assert_eq!(detect_features(Runtime::Minimal, NEON_MASK, 0x1000), 0);
}

#[test]
fn standard_runtime_without_static_neon_queries() {
    assert!(needs_os_query(Runtime::Standard, 0));
    assert!(needs_os_query(Runtime::Standard, FORCE_DYNAMIC_DETECTION));
}

#[test]
fn hwcap_word_reads_only_the_designated_bit() {
    assert_eq!(features_from_hwcap(HWCAP_NEON), NEON_MASK);
    assert_eq!(features_from_hwcap(0), 0);
    assert_eq!(features_from_hwcap(!HWCAP_NEON), 0);
    assert_eq!(features_from_hwcap(u64::MAX), NEON_MASK);
}

#[test]
fn detector_is_idempotent_in_an_unchanged_environment() {
    let first = detect_features(Runtime::Standard, 0, 0x1000);
    let second = detect_features(Runtime::Standard, 0, 0x1000);
    assert_eq!(first, second);
    let first = detect_features(Runtime::Minimal, NEON_MASK, 0);
    let second = detect_features(Runtime::Minimal, NEON_MASK, 0);
    assert_eq!(first, second);
}

#[test]
fn detector_never_claims_a_capability_other_than_neon() {
    assert_eq!(detect_features(Runtime::Standard, 0, u64::MAX) & FORCE_DYNAMIC_DETECTION, 0);
    assert_eq!(detect_features(Runtime::Standard, 0, u64::MAX), NEON_MASK);
}
