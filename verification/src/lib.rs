//! Runtime CPU-capability detection for the ARM/Linux pair.
//!
//! The library decides which hardware-accelerated instruction extensions are
//! safe to use on the executing processor, producing a capability bitmask
//! for dispatch logic. Compile-time target configuration is not trusted for
//! cryptographic extensions: certain compiler CPU-tuning profiles claim them
//! even on processors that lack them, so every capability bit except the
//! foundational SIMD extension (NEON) is forced through dynamic
//! re-verification, and NEON itself is confirmed by querying the OS
//! auxiliary vector when the static baseline does not already guarantee it.
//!
//! The single OS query (an unsafe auxiliary-vector read) lives outside the
//! library; everything here is safe code on plain integers: the registry of
//! capability bits, the decision whether the OS must be consulted, and the
//! merge of static knowledge with the hardware-capability word.

mod caps;
mod detect;

pub use caps::{lemma_force_dynamic_detection, Neon, FORCE_DYNAMIC_DETECTION, HWCAP_NEON, NEON_MASK};
pub use detect::{
    detect_features, features_from_hwcap, lemma_detect_idempotent, lemma_never_over_detects,
    lemma_skipped_query_is_zero, needs_os_query, spec_detect_features, spec_features_from_hwcap,
    spec_needs_os_query, Runtime,
};
