//! A small linear congruential generator used to randomize the delay before
//! the "go" signal of a round.

use vstd::prelude::*;

verus! {

/// Multiplier of the linear congruential step (a classic Numerical Recipes
/// constant pair together with [`LCG_INCREMENT`]).
pub const LCG_MULTIPLIER: u64 = 1664525;

/// Increment of the linear congruential step.
pub const LCG_INCREMENT: u64 = 1013904223;

/// One step of the generator: `seed * LCG_MULTIPLIER + LCG_INCREMENT`,
/// wrapping modulo 2^64.
pub open spec fn lcg_next(seed: u64) -> u64 {
    seed.wrapping_mul(LCG_MULTIPLIER).wrapping_add(LCG_INCREMENT)
}

/// Pseudo-random `u64` source. The whole stream is a function of the seed;
/// the driver seeds it from the boot clock.
pub struct SimpleRngU64 {
    pub seed: u64,
}

impl SimpleRngU64 {
    /// A generator starting from the given seed.
    pub fn new(seed: u64) -> (rng: SimpleRngU64)
        ensures
            rng.seed == seed,
    {
        SimpleRngU64 { seed }
    }

    /// Advances the seed by one linear congruential step and returns it.
    pub fn next_u64(&mut self) -> (r: u64)
        ensures
            final(self).seed == lcg_next(old(self).seed),
            r == final(self).seed,
    {
        self.seed = self.seed.wrapping_mul(LCG_MULTIPLIER).wrapping_add(LCG_INCREMENT);
        self.seed
    }

    /// A value in `[from, to]`, taken from the next generator step.
    /// A degenerate range (`from >= to`) returns `from` and leaves the
    /// generator untouched.
    pub fn generate_from_range(&mut self, from: u64, to: u64) -> (r: u64)
        requires
            // `to - from + 1` must fit in a `u64`
            !(from == 0 && to == u64::MAX),
        ensures
            from >= to ==> r == from && *final(self) == *old(self),
            from < to ==> final(self).seed == lcg_next(old(self).seed),
            from < to ==> r == from + lcg_next(old(self).seed) as int % (to - from + 1),
            r >= from,
            from < to ==> r <= to,
    {
        if from >= to {
            return from;
        }
        let span: u64 = to - from + 1;
        let x: u64 = self.next_u64();
        from + x % span
    }
}

} // verus!
