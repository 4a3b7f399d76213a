//! Capability tiers: an ordinal ranking of processor feature sets, ordered
//! from least to most capable. Higher tiers imply all capabilities of lower
//! ones, so the tier chosen for a processor is the highest tier whose
//! prerequisite flags are all reported.

use vstd::prelude::*;

verus! {

/// Tier 0: no relevant feature flags; the unspecialized reference path.
pub const TIER_BASELINE: usize = 0;

/// Tier 1: the AVX flag is reported.
pub const TIER_AVX: usize = 1;

/// Tier 2: both the AVX2 and the AVX flag are reported.
pub const TIER_AVX2_AVX: usize = 2;

/// Number of tiers, kept in lock-step with the variant table's size.
pub const TIER_COUNT: usize = 3;

/// A tier is valid when it indexes into the variant table.
pub open spec fn valid_tier(t: usize) -> bool {
    t < TIER_COUNT
}

/// The tier owed to a processor reporting the given flags: the highest tier
/// whose prerequisites are all present, tested from most to least capable.
pub open spec fn tier_of_flags(avx2: bool, avx: bool) -> usize {
    if avx2 && avx {
        TIER_AVX2_AVX
    } else if avx {
        TIER_AVX
    } else {
        TIER_BASELINE
    }
}

/// Detection is deterministic: on a fixed hardware configuration (a fixed
/// pair of reported flags), repeated detections always rank to the same
/// tier, and that tier is always valid.
pub proof fn lemma_detect_deterministic(avx2_a: bool, avx_a: bool, avx2_b: bool, avx_b: bool)
    requires
        avx2_a == avx2_b,
        avx_a == avx_b,
    ensures
        tier_of_flags(avx2_a, avx_a) == tier_of_flags(avx2_b, avx_b),
        valid_tier(tier_of_flags(avx2_a, avx_a)),
{
}

} // verus!
