use vstd::prelude::*;

verus! {

/// Bit assigned to the foundational SIMD extension (NEON) within a
/// capability set. A capability set is a `u32` bitmask: a set bit means the
/// capability is confirmed available, and `0` means no accelerated
/// capability is confirmed. Bit positions are a contract shared by every
/// compiled unit that consumes the mask and must never change within a
/// build.
pub const NEON_MASK: u32 = 1u32 << 0;

/// The NEON capability of the registry. On this architecture/OS pair it is
/// the only capability that participates in dynamic detection; all other
/// capability bits are resolved purely from the static baseline by the
/// external merge logic.
pub struct Neon;

impl Neon {
    /// The NEON capability's bit value within a capability set.
    pub fn mask() -> (m: u32)
        ensures
            m == NEON_MASK,
    {
        NEON_MASK
    }
}

/// Capability bits that must never be trusted from static build
/// configuration alone: every bit other than NEON's. Some compiler
/// CPU-tuning profiles set static capability flags for cryptographic
/// extensions even on processors that do not implement them; the external
/// static/dynamic merge strips these bits (AND-NOT) from the static claims
/// before combining them with the dynamically detected set. This library
/// only defines and exports the mask; applying it is the merge logic's job.
pub const FORCE_DYNAMIC_DETECTION: u32 = !NEON_MASK;

/// Bit the kernel sets for NEON in the hardware-capability word of the
/// auxiliary vector. Fixed by the platform's auxiliary-vector encoding.
pub const HWCAP_NEON: u64 = 1u64 << 12;

/// `FORCE_DYNAMIC_DETECTION` is exactly the bitwise complement of the NEON
/// mask: it excludes NEON's bit and covers every other capability bit.
pub proof fn lemma_force_dynamic_detection()
    ensures
        FORCE_DYNAMIC_DETECTION == !NEON_MASK,
        FORCE_DYNAMIC_DETECTION & NEON_MASK == 0,
        FORCE_DYNAMIC_DETECTION | NEON_MASK == u32::MAX,
{
    assert(FORCE_DYNAMIC_DETECTION & NEON_MASK == 0) by (bit_vector);
    assert(FORCE_DYNAMIC_DETECTION | NEON_MASK == u32::MAX) by (bit_vector);
}

} // verus!
