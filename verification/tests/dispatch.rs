use cpu_dispatch::DispatchCache;
use cpu_dispatch::Dispatcher;
use cpu_dispatch::Variant;

/// The toy workload: a byte-wise exclusive-or reduction.
fn xor(i: &[u8]) -> u8 {
    i.iter().fold(0, |a, b| a ^ b)
}

/// Deterministic pseudo-random bytes, so every run sees the same inputs.
fn pseudo_random_bytes(len: usize, mut seed: u64) -> Vec<u8> {
    let mut out = Vec::with_capacity(len);
    for _ in 0..len {
        seed = seed.wrapping_mul(6364136223846793005).wrapping_add(1442695040888963407);
        out.push((seed >> 56) as u8);
    }
    out
}

fn all_flags() -> Vec<(bool, bool)> {
    vec![(false, false), (false, true), (true, false), (true, true)]
}

#[test]
fn detect_is_deterministic() {
    for (avx2, avx) in all_flags() {
        let first = Dispatcher::<false>::detect(avx2, avx);
        for _ in 0..100 {
            assert_eq!(Dispatcher::<false>::detect(avx2, avx), first);
            assert_eq!(Dispatcher::<true>::detect(avx2, avx), first);
        }
    }
}

#[test]
fn detect_ranks_flags() {
    assert_eq!(Dispatcher::<false>::detect(false, false), 0);
    assert_eq!(Dispatcher::<false>::detect(false, true), 1);
    assert_eq!(Dispatcher::<false>::detect(true, true), 2);
    // AVX2 reported without AVX does not satisfy the top tier's
    // prerequisites, and no lower tier needs AVX2: baseline.
    assert_eq!(Dispatcher::<false>::detect(true, false), 0);
}

#[test]
fn variants_match_baseline() {
    let input = pseudo_random_bytes(1024, 7);
    let reference = xor(&input);
    for v in [Variant::Baseline, Variant::Avx, Variant::Avx2Avx] {
        let got = Dispatcher::<false>::invoke_variant(v, || xor(&input));
        assert_eq!(got, reference);
    }
}

#[test]
fn cache_starts_unresolved() {
    let cache = DispatchCache::new();
    assert_eq!(cache.load(), None);
}

#[test]
fn cache_is_stable_after_first_resolution() {
    let mut cache = DispatchCache::new();
    let first = cache.resolve(true, true);
    assert_eq!(first, 2);
    // Later resolutions ignore the flags they are handed: the cell is
    // already resolved and must keep its tier.
    for (avx2, avx) in all_flags() {
        assert_eq!(cache.resolve(avx2, avx), first);
        assert_eq!(cache.load(), Some(first));
    }
}

#[test]
fn racing_resolvers_agree() {
    // Writers racing on one cell each rank the same hardware report; model
    // each racer as its own cache and check that every one settles on the
    // same, in-range tier.
    for (avx2, avx) in all_flags() {
        let mut tiers = Vec::new();
        for _ in 0..8 {
            let mut cache = DispatchCache::new();
            tiers.push(cache.resolve(avx2, avx));
        }
        for &t in tiers.iter() {
            assert_eq!(t, tiers[0]);
            assert!(t < 3);
        }
    }
}

#[test]
fn strategies_agree_on_every_tier() {
    for len in [8usize, 1024] {
        let input = pseudo_random_bytes(len, len as u64);
        let reference = xor(&input);
        for tier in 0..3usize {
            let branching = Dispatcher::<false>::invoke_branching(tier, || xor(&input));
            let indirect = Dispatcher::<true>::invoke_indirect(tier, || xor(&input));
            assert_eq!(branching, reference);
            assert_eq!(indirect, reference);
        }
    }
}

#[test]
fn no_flags_resolves_to_baseline() {
    let mut cache = DispatchCache::new();
    assert_eq!(cache.resolve(false, false), 0);

    let input = pseudo_random_bytes(8, 3);
    let reference = xor(&input);
    let mut cache = DispatchCache::new();
    let got = Dispatcher::<false>::dispatch(&mut cache, false, false, || xor(&input));
    assert_eq!(got, reference);
    assert_eq!(cache.load(), Some(0));
}

#[test]
fn top_tier_flags_resolve_to_highest() {
    let mut cache = DispatchCache::new();
    assert_eq!(cache.resolve(true, true), 2);

    for len in [8usize, 1024] {
        let input = pseudo_random_bytes(len, 11 + len as u64);
        let reference = xor(&input);
        for indirect in [false, true] {
            let mut cache = DispatchCache::new();
            let got = if indirect {
                Dispatcher::<true>::dispatch(&mut cache, true, true, || xor(&input))
            } else {
                Dispatcher::<false>::dispatch(&mut cache, true, true, || xor(&input))
            };
            assert_eq!(got, reference);
            assert_eq!(cache.load(), Some(2));
        }
    }
}

#[test]
fn dispatch_returns_the_computation_result() {
    let mut cache = DispatchCache::new();
    assert_eq!(Dispatcher::<false>::dispatch(&mut cache, false, true, || 41u64 + 1), 42);
    // The cache resolved on the first call keeps its tier on later calls.
    assert_eq!(Dispatcher::<false>::dispatch(&mut cache, false, false, || 5u8), 5);
    assert_eq!(cache.load(), Some(1));
}

#[test]
fn empty_input_dispatches_too() {
    let input: Vec<u8> = Vec::new();
    let mut cache = DispatchCache::new();
    let got = Dispatcher::<true>::dispatch(&mut cache, true, true, || xor(&input));
    assert_eq!(got, 0);
}
