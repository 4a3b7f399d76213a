//! The variant invoker: given a capability tier, route a zero-argument
//! computation to the specialized implementation for that tier. Two dispatch
//! strategies are supported — an explicit conditional over the tier, and an
//! indexed lookup in the variant table — and both route any tier to the same
//! variant. Specialization changes only the code path taken, never the
//! computed value, so every variant admits exactly the input-output pairs of
//! the baseline computation.

use crate::tier::valid_tier;
use crate::tier::TIER_AVX;
use crate::tier::TIER_AVX2_AVX;
use vstd::prelude::*;

verus! {

/// One entry of the variant table: which specialized implementation of the
/// caller's computation runs.
#[derive(Clone, Copy, PartialEq, Eq, Structural, Debug)]
pub enum Variant {
    /// The unspecialized reference implementation.
    Baseline,
    /// Compiled assuming the AVX feature is available.
    Avx,
    /// Compiled assuming both the AVX2 and the AVX feature are available.
    Avx2Avx,
}

/// The branching strategy's selection rule: an explicit conditional from the
/// tier to its variant, tested from most to least capable.
pub open spec fn variant_of_tier(t: usize) -> Variant {
    if t == TIER_AVX2_AVX {
        Variant::Avx2Avx
    } else if t == TIER_AVX {
        Variant::Avx
    } else {
        Variant::Baseline
    }
}

/// The indirect strategy's selection rule: the variant table, one entry per
/// tier, indexed by the tier ordinal.
pub open spec fn variant_table() -> Seq<Variant> {
    seq![Variant::Baseline, Variant::Avx, Variant::Avx2Avx]
}

/// What the baseline path guarantees of a result: it is a possible output of
/// the caller's computation.
pub open spec fn baseline_post<Output, F: FnOnce() -> Output>(f: F, r: Output) -> bool {
    call_ensures(f, (), r)
}

/// What the variant `v` guarantees of a result. Every variant runs the
/// caller's computation exactly once, so each arm states the same guarantee.
pub open spec fn variant_post<Output, F: FnOnce() -> Output>(v: Variant, f: F, r: Output) -> bool {
    match v {
        Variant::Baseline => call_ensures(f, (), r),
        Variant::Avx => call_ensures(f, (), r),
        Variant::Avx2Avx => call_ensures(f, (), r),
    }
}

/// Specialization equivalence: for every variant, the outputs it admits for
/// a computation are exactly those the baseline admits — a specialized
/// implementation never computes a different value.
pub proof fn lemma_variant_equivalence<Output, F: FnOnce() -> Output>(v: Variant, f: F, r: Output)
    ensures
        variant_post(v, f, r) <==> baseline_post(f, r),
{
}

/// Strategy equivalence: for every valid tier, the variant table's entry is
/// the variant the branching conditional selects, so the two dispatch
/// strategies route every call to the same implementation.
pub proof fn lemma_strategy_equivalence(t: usize)
    requires
        valid_tier(t),
    ensures
        variant_table()[t as int] == variant_of_tier(t),
{
}

} // verus!
