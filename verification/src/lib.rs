//! Runtime selection among hardware-capability-specialized implementations.
//!
//! Given a computation with several tier-specialized variants (baseline, AVX,
//! AVX2+AVX), the library ranks the host processor's reported feature flags
//! into a capability tier, caches that tier in an explicit, injectable cache
//! cell, and routes every call to the variant for the cached tier, either by
//! direct branching or through an indexed variant table.
//!
//! Querying the processor's feature flags is an environment read and happens
//! at the caller's edge; the library takes the reported flags as plain
//! booleans and everything from there on is verified.

use vstd::prelude::*;

pub mod cache;
pub mod tier;
pub mod variant;

pub use cache::DispatchCache;
pub use tier::tier_of_flags;
pub use tier::valid_tier;
pub use tier::TIER_AVX;
pub use tier::TIER_AVX2_AVX;
pub use tier::TIER_BASELINE;
pub use tier::TIER_COUNT;
pub use variant::variant_of_tier;
pub use variant::variant_table;
pub use variant::Variant;

verus! {

/// Entry point for tier-specialized dispatch. `INDIRECT` selects the dispatch
/// strategy: `false` routes through an explicit conditional over the tier,
/// `true` through a variant table indexed by the tier ordinal. The choice
/// never changes what is computed, only how the call is routed.
pub struct Dispatcher<const INDIRECT: bool>;

impl<const INDIRECT: bool> Dispatcher<INDIRECT> {
    /// Rank the processor's reported feature flags into a capability tier.
    ///
    /// Detection cannot fail: absent features are a normal outcome and map to
    /// a lower tier. The top tier requires both the AVX2 and the AVX flag.
    pub fn detect(avx2: bool, avx: bool) -> (t: usize)
        ensures
            t == tier_of_flags(avx2, avx),
            valid_tier(t),
    {
        if avx2 && avx {
            TIER_AVX2_AVX
        } else if avx {
            TIER_AVX
        } else {
            TIER_BASELINE
        }
    }

    /// The implementation for the top tier: runs the computation on the code
    /// path that assumes AVX2 and AVX.
    fn avx2_avx<Output, F: FnOnce() -> Output>(f: F) -> (r: Output)
        requires
            call_requires(f, ()),
        ensures
            variant::variant_post(Variant::Avx2Avx, f, r),
    {
        f()
    }

    /// The implementation for the middle tier: runs the computation on the
    /// code path that assumes AVX.
    fn avx<Output, F: FnOnce() -> Output>(f: F) -> (r: Output)
        requires
            call_requires(f, ()),
        ensures
            variant::variant_post(Variant::Avx, f, r),
    {
        f()
    }

    /// The baseline implementation: runs the computation on the
    /// unspecialized reference path.
    fn none<Output, F: FnOnce() -> Output>(f: F) -> (r: Output)
        requires
            call_requires(f, ()),
        ensures
            variant::baseline_post(f, r),
    {
        f()
    }

    /// Run the computation through the given variant.
    pub fn invoke_variant<Output, F: FnOnce() -> Output>(v: Variant, f: F) -> (r: Output)
        requires
            call_requires(f, ()),
        ensures
            variant::variant_post(v, f, r),
    {
        match v {
            Variant::Avx2Avx => Self::avx2_avx(f),
            Variant::Avx => Self::avx(f),
            Variant::Baseline => Self::none(f),
        }
    }

    /// Branching strategy: an explicit conditional over the tier, each arm
    /// statically bound to one variant.
    pub fn invoke_branching<Output, F: FnOnce() -> Output>(tier: usize, f: F) -> (r: Output)
        requires
            valid_tier(tier),
            call_requires(f, ()),
        ensures
            variant::variant_post(variant_of_tier(tier), f, r),
    {
        if tier == TIER_AVX2_AVX {
            Self::avx2_avx(f)
        } else if tier == TIER_AVX {
            Self::avx(f)
        } else {
            Self::none(f)
        }
    }

    /// Indirect strategy: the variant table, indexed by the tier ordinal
    /// with the bound checked once against the table's size.
    pub fn invoke_indirect<Output, F: FnOnce() -> Output>(tier: usize, f: F) -> (r: Output)
        requires
            valid_tier(tier),
            call_requires(f, ()),
        ensures
            variant::variant_post(variant_table()[tier as int], f, r),
    {
        let table: [Variant; TIER_COUNT] = [Variant::Baseline, Variant::Avx, Variant::Avx2Avx];
        let v = table[tier];
        proof {
            assert(table@ =~= variant_table());
        }
        Self::invoke_variant(v, f)
    }

    /// Execute the computation through the capability-specialized path.
    ///
    /// The cache supplies the tier, resolving once from the reported flags;
    /// the strategy chosen by `INDIRECT` routes the call; and whichever
    /// variant runs, the result is one the computation itself admits.
    pub fn dispatch<Output, F: FnOnce() -> Output>(
        cache: &mut DispatchCache,
        avx2: bool,
        avx: bool,
        f: F,
    ) -> (r: Output)
        requires
            old(cache).wf(),
            call_requires(f, ()),
        ensures
            final(cache).wf(),
            final(cache).resolved_tier() is Some,
            old(cache).resolved_tier() is Some ==> *final(cache) == *old(cache),
            old(cache).resolved_tier() is None ==> final(cache).resolved_tier() == Some(
                tier_of_flags(avx2, avx),
            ),
            call_ensures(f, (), r),
    {
        let tier = cache.resolve(avx2, avx);
        if INDIRECT {
            let r = Self::invoke_indirect(tier, f);
            proof {
                variant::lemma_variant_equivalence(variant_table()[tier as int], f, r);
            }
            r
        } else {
            let r = Self::invoke_branching(tier, f);
            proof {
                variant::lemma_variant_equivalence(variant_of_tier(tier), f, r);
            }
            r
        }
    }
}

} // verus!
