//! The dispatch cache: a single cell that starts unresolved and is written
//! once (logically) with the detected tier, then read for the rest of the
//! process. Redundant writes are benign because every writer ranks the same
//! hardware report to the same tier; the cell is an explicit, constructible
//! component so each dispatch site, and each test, can own its own.

use crate::tier::tier_of_flags;
use crate::tier::valid_tier;
use vstd::prelude::*;

verus! {

/// The cache cell. A single scalar holds either a sentinel "unresolved"
/// value or a resolved capability tier; these are its only two states, and
/// once resolved it never changes tier again.
pub struct DispatchCache {
    selected: usize,
}

impl DispatchCache {
    /// The tier the cell has resolved to, or `None` while it is unresolved.
    pub closed spec fn resolved_tier(self) -> Option<usize> {
        if self.selected == usize::MAX {
            None
        } else {
            Some(self.selected)
        }
    }

    /// The cell holds either the sentinel or a valid tier; a torn or
    /// out-of-range value never appears.
    pub open spec fn wf(self) -> bool {
        match self.resolved_tier() {
            None => true,
            Some(t) => valid_tier(t),
        }
    }

    /// Create a cache in the unresolved state.
    pub fn new() -> (c: DispatchCache)
        ensures
            c.wf(),
            c.resolved_tier() is None,
    {
        DispatchCache { selected: usize::MAX }
    }

    /// Read the cell without resolving it.
    pub fn load(&self) -> (r: Option<usize>)
        requires
            self.wf(),
        ensures
            r == self.resolved_tier(),
    {
        if self.selected == usize::MAX {
            None
        } else {
            Some(self.selected)
        }
    }

    /// Return the cached tier, resolving the cell on the first call.
    ///
    /// Fast path: an already-resolved cell is returned as it stands; the
    /// flags are ignored, so later callers need not re-query the processor.
    /// Slow path: rank the reported flags and store the result. Racing
    /// resolvers of one hardware report all store the same tier, so a
    /// last-writer-wins race is harmless.
    pub fn resolve(&mut self, avx2: bool, avx: bool) -> (t: usize)
        requires
            old(self).wf(),
        ensures
            final(self).wf(),
            valid_tier(t),
            final(self).resolved_tier() == Some(t),
            old(self).resolved_tier() is Some ==> *final(self) == *old(self) && old(
                self,
            ).resolved_tier() == Some(t),
            old(self).resolved_tier() is None ==> t == tier_of_flags(avx2, avx),
    {
        if self.selected == usize::MAX {
            let t: usize = if avx2 && avx {
                crate::tier::TIER_AVX2_AVX
            } else if avx {
                crate::tier::TIER_AVX
            } else {
                crate::tier::TIER_BASELINE
            };
            self.selected = t;
            t
        } else {
            self.selected
        }
    }
}

/// Race tolerance: resolvers racing on an unresolved cell each rank the same
/// hardware report, so whichever write lands, every thread settles on the
/// same tier, and that tier is valid — no torn value can be stored.
pub proof fn lemma_race_tolerance(avx2: bool, avx: bool, t1: usize, t2: usize)
    requires
        t1 == tier_of_flags(avx2, avx),
        t2 == tier_of_flags(avx2, avx),
    ensures
        t1 == t2,
        valid_tier(t1),
{
}

} // verus!
