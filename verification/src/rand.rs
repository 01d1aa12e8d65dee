//! The pseudo-random source behind every stochastic decision of a particle.

use vstd::prelude::*;

verus! {

/// The modulus of the generator, the Mersenne prime 2^31 - 1.
pub const MODULUS: u32 = 2147483647;

/// The multiplier of the generator.
pub const MULTIPLIER: u32 = 16807;

/// What a draw is measured against: a draw `n` stands for the fraction
/// `n / DENOMINATOR`.
pub const DENOMINATOR: u32 = 2147483646;

/// The state a generator made from `seed` starts in.
pub open spec fn seeded(seed: u32) -> int {
    (seed + 1) % (MODULUS as int)
}

/// The state that follows `state`.
pub open spec fn stepped(state: int) -> int {
    (state * MULTIPLIER) % (MODULUS as int)
}

/// The draw that a generator hands out on reaching `state`: one less than the
/// state, and zero for the one state that has nothing below it.
pub open spec fn drawn(state: int) -> int {
    if state >= 1 {
        state - 1
    } else {
        0
    }
}

/// Where a draw lands in the span from `min` towards `max`: `min` plus the
/// span scaled by the draw's fraction, rounded towards `min`.
pub open spec fn scaled(draw: int, min: int, max: int) -> int {
    if max >= min {
        min + (draw * (max - min)) / (DENOMINATOR as int)
    } else {
        min - (draw * (min - max)) / (DENOMINATOR as int)
    }
}

/// A multiplicative congruential generator. One value of it yields one fixed
/// sequence of draws.
#[derive(Debug)]
pub struct Rand {
    seed: u32,
}

impl Rand {
    /// The generator's state.
    pub closed spec fn state(&self) -> int {
        self.seed as int
    }

    pub fn new(seed: u32) -> (rng: Rand)
        ensures
            rng.state() == seeded(seed),
    {
        let next: u64 = (seed as u64 + 1) % (MODULUS as u64);
        Rand { seed: next as u32 }
    }

    /// The state as it would be written into a cell's scratch word.
    pub fn seed(&self) -> (seed: u32)
        ensures
            seed == self.state(),
            seed < MODULUS,
    {
        proof {
            use_type_invariant(self);
        }
        self.seed
    }

    /// Moves the generator on by one state and returns that state.
    pub fn next(&mut self) -> (state: u32)
        ensures
            final(self).state() == stepped(old(self).state()),
            state == final(self).state(),
    {
        let current: u64 = self.seed as u64;
        assert(current * MULTIPLIER <= 0xffff_ffff * 16807) by (nonlinear_arith)
            requires
                current <= 0xffff_ffff,
                MULTIPLIER == 16807,
        ;
        let product: u64 = current * (MULTIPLIER as u64);
        self.seed = (product % (MODULUS as u64)) as u32;
        self.seed
    }

    /// The next draw from the unit interval, its upper end left out, given as
    /// the numerator of a fraction of `DENOMINATOR`.
    pub fn float(&mut self) -> (draw: u32)
        ensures
            final(self).state() == stepped(old(self).state()),
            draw == drawn(final(self).state()),
            draw < DENOMINATOR,
    {
        let state: u32 = self.next();
        proof {
            use_type_invariant(&*self);
        }
        if state >= 1 {
            state - 1
        } else {
            0
        }
    }

    /// The next draw, scaled into the span from `min` towards `max`. For
    /// `min < max` the result is at least `min` and below `max`.
    pub fn range(&mut self, min: i32, max: i32) -> (r: i32)
        ensures
            final(self).state() == stepped(old(self).state()),
            r == scaled(drawn(final(self).state()), min as int, max as int),
            min <= max ==> min <= r <= max,
            min < max ==> r < max,
            max < min ==> max < r <= min,
    {
        let draw: u64 = self.float() as u64;
        if max >= min {
            let span: u64 = (max as i64 - min as i64) as u64;
            proof {
                lemma_scaled_below(draw as int, span as int);
            }
            let offset: u64 = draw * span / (DENOMINATOR as u64);
            (min as i64 + offset as i64) as i32
        } else {
            let span: u64 = (min as i64 - max as i64) as u64;
            proof {
                lemma_scaled_below(draw as int, span as int);
            }
            let offset: u64 = draw * span / (DENOMINATOR as u64);
            (min as i64 - offset as i64) as i32
        }
    }

    #[verifier::type_invariant]
    spec fn in_range(&self) -> bool {
        self.seed < MODULUS
    }
}

/// A draw scaled by a span stays below the span, and the product fits in 64
/// bits for every span between two 32-bit numbers.
proof fn lemma_scaled_below(draw: int, span: int)
    requires
        0 <= draw < DENOMINATOR,
        0 <= span <= 0xffff_ffff,
    ensures
        0 <= draw * span <= 0x7fff_ffff_ffff_ffff,
        0 <= (draw * span) / (DENOMINATOR as int) <= span,
        span > 0 ==> (draw * span) / (DENOMINATOR as int) < span,
{
    assert(0 <= draw * span <= 2147483645 * span) by (nonlinear_arith)
        requires
            0 <= draw <= 2147483645,
            0 <= span,
    ;
    assert(0 <= (draw * span) / 2147483646 <= span && (span > 0 ==> (draw * span) / 2147483646
        < span)) by (nonlinear_arith)
        requires
            0 <= draw * span <= 2147483645 * span,
            0 <= span,
    ;
}

} // verus!
