use vstd::prelude::*;

use crate::caps::{FORCE_DYNAMIC_DETECTION, HWCAP_NEON, NEON_MASK};

verus! {

/// The runtime environment the build targets, fixed at process start. The
/// caller selects the variant once, when the process begins, and it never
/// changes afterwards.
#[derive(Clone, Copy, Debug, PartialEq, Eq, Structural)]
pub enum Runtime {
    /// A minimal runtime that is not known to reliably expose the OS
    /// auxiliary-vector facility: dynamic probing is skipped entirely and
    /// only static capability knowledge is trusted.
    Minimal,
    /// A standard runtime where the auxiliary vector can always be queried.
    Standard,
}

/// Whether the detector must consult the OS: only in a standard runtime,
/// and only when the static baseline does not already guarantee NEON (a
/// build-time guarantee makes the runtime check redundant, so the system
/// call is avoided).
pub open spec fn spec_needs_os_query(rt: Runtime, caps_static: u32) -> bool {
    rt is Standard && caps_static & NEON_MASK != NEON_MASK
}

/// The capability set read off a hardware-capability word: NEON's bit alone,
/// and only when its designated hardware bit is set. No other capability is
/// ever confirmed dynamically on this platform.
pub open spec fn spec_features_from_hwcap(hwcap: u64) -> u32 {
    if hwcap & HWCAP_NEON == HWCAP_NEON {
        NEON_MASK
    } else {
        0u32
    }
}

/// The whole merge policy: the dynamically confirmed capability set as a
/// function of the immutable environment facts. Every uncertain condition —
/// minimal runtime, unset hardware bit, redundant query — resolves to
/// "capability absent", never to an error.
pub open spec fn spec_detect_features(rt: Runtime, caps_static: u32, hwcap: u64) -> u32 {
    if spec_needs_os_query(rt, caps_static) {
        spec_features_from_hwcap(hwcap)
    } else {
        0u32
    }
}

/// Decides whether the OS auxiliary-vector query must be issued. When this
/// returns `false` the caller must not query the OS: the detector's result
/// is already determined (see `lemma_skipped_query_is_zero`).
pub fn needs_os_query(rt: Runtime, caps_static: u32) -> (b: bool)
    ensures
        b == spec_needs_os_query(rt, caps_static),
{
    match rt {
        Runtime::Minimal => false,
        Runtime::Standard => caps_static & NEON_MASK != NEON_MASK,
    }
}

/// Turns the hardware-capability word the OS reported into a capability set:
/// exactly NEON's bit when its designated hardware bit is set, `0` otherwise.
pub fn features_from_hwcap(hwcap: u64) -> (features: u32)
    ensures
        features == spec_features_from_hwcap(hwcap),
        features == 0 || features == NEON_MASK,
{
    if hwcap & HWCAP_NEON == HWCAP_NEON {
        NEON_MASK
    } else {
        0u32
    }
}

/// The dynamic detector, given the environment facts it depends on: the
/// runtime variant, the static capability baseline, and the
/// hardware-capability word the OS would report. When the OS query is
/// skipped (minimal runtime, or NEON statically guaranteed) the word is
/// ignored and the result is `0`.
pub fn detect_features(rt: Runtime, caps_static: u32, hwcap: u64) -> (features: u32)
    ensures
        features == spec_detect_features(rt, caps_static, hwcap),
        features == 0 || features == NEON_MASK,
        rt is Minimal ==> features == 0,
        caps_static & NEON_MASK == NEON_MASK ==> features == 0,
        hwcap & HWCAP_NEON != HWCAP_NEON ==> features == 0,
        rt is Standard && caps_static & NEON_MASK != NEON_MASK && hwcap & HWCAP_NEON
            == HWCAP_NEON ==> features == NEON_MASK,
{
    if needs_os_query(rt, caps_static) {
        features_from_hwcap(hwcap)
    } else {
        0u32
    }
}

/// When the OS query is skipped — in the minimal runtime, or because the
/// static baseline already contains NEON — the detector's result is `0`
/// whatever the hardware-capability word would have said, so not issuing
/// the query loses nothing.
pub proof fn lemma_skipped_query_is_zero(rt: Runtime, caps_static: u32, hwcap: u64)
    requires
        !spec_needs_os_query(rt, caps_static),
    ensures
        spec_detect_features(rt, caps_static, hwcap) == 0,
{
}

/// Idempotence: the detector is a pure function of the immutable environment
/// facts, so two calls in an unchanged environment return identical results.
pub proof fn lemma_detect_idempotent(
    rt: Runtime,
    caps_static: u32,
    hwcap: u64,
    first: u32,
    second: u32,
)
    requires
        first == spec_detect_features(rt, caps_static, hwcap),
        second == spec_detect_features(rt, caps_static, hwcap),
    ensures
        first == second,
{
}

/// Safety asymmetry: whatever the environment, the detector never claims a
/// capability other than NEON — its result never intersects the bits that
/// `FORCE_DYNAMIC_DETECTION` marks as untrustworthy. Under-detection is
/// acceptable; over-detection would let dispatch run faulting instructions.
pub proof fn lemma_never_over_detects(rt: Runtime, caps_static: u32, hwcap: u64)
    ensures
        spec_detect_features(rt, caps_static, hwcap) & FORCE_DYNAMIC_DETECTION == 0,
{
    let features = spec_detect_features(rt, caps_static, hwcap);
    assert(features == 0 || features == NEON_MASK);
    assert(0u32 & FORCE_DYNAMIC_DETECTION == 0) by (bit_vector);
    assert(NEON_MASK & FORCE_DYNAMIC_DETECTION == 0) by (bit_vector);
}

} // verus!
