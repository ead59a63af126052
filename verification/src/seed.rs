//! The seed of the network stack.
use vstd::prelude::*;

verus! {

/// The number whose upper half is `high` and whose lower half is `low`.
pub open spec fn seed_of(high: u32, low: u32) -> int {
    high * 0x1_0000_0000 + low
}

/// Joins two random words into one seed: the first word drawn is the upper half.
pub fn stack_seed(high: u32, low: u32) -> (seed: u64)
    ensures
        seed == seed_of(high, low),
{
    let upper: u64 = high as u64;
    let lower: u64 = low as u64;
    assert((upper << 32 | lower) == upper * 0x1_0000_0000 + lower) by (bit_vector)
        requires
            upper < 0x1_0000_0000,
            lower < 0x1_0000_0000,
    ;
    upper << 32 | lower
}

/// No randomness is lost: different pairs of words give different seeds.
pub proof fn law_seed_keeps_both_words(high1: u32, low1: u32, high2: u32, low2: u32)
    requires
        seed_of(high1, low1) == seed_of(high2, low2),
    ensures
        high1 == high2,
        low1 == low2,
{
}

/// Every seed can come up: some pair of words gives it.
pub proof fn law_every_seed_has_its_words(seed: u64)
    ensures
        exists|high: u32, low: u32| #[trigger] seed_of(high, low) == seed,
{
    let high = (seed / 0x1_0000_0000) as u32;
    let low = (seed % 0x1_0000_0000) as u32;
    assert(seed_of(high, low) == seed);
}

/// A seed splits into the words that it was joined from: the first is its upper half,
/// the second its lower half.
pub proof fn law_seed_splits_into_its_words(high: u32, low: u32, seed: u64)
    requires
        call_ensures(stack_seed, (high, low), seed),
    ensures
        seed as int / 0x1_0000_0000 == high,
        seed as int % 0x1_0000_0000 == low,
{
}

} // verus!
