//! Deterministic pseudo-random source: a 64-bit xorshift generator.
//!
//! The generator is seeded with a fixed non-zero constant so that a run is
//! reproducible given the same call sequence. `between(a, b)` maps the 32-bit
//! output onto `[a, b]` with exact integer arithmetic.

use vstd::arithmetic::div_mod::{lemma_div_is_ordered, lemma_div_multiples_vanish, lemma_div_pos_is_pos};
use vstd::arithmetic::mul::lemma_mul_inequality;
use vstd::prelude::*;

verus! {

/// Fixed non-zero seed used at construction.
pub const DEFAULT_SEED: u64 = 0x1234_5678_90ab_cdef;

/// Largest value of the generator's 32-bit output.
pub const RAND_MAX: u64 = 0xFFFF_FFFF;

/// One xorshift round: three shift-xor mixing steps on the 64-bit state.
pub open spec fn xorshift_next(s: u64) -> u64 {
    let a = s ^ (s << 7);
    let b = a ^ (a >> 9);
    b ^ (b << 8)
}

/// The 32-bit value drawn when stepping a generator whose state is `s`:
/// the low 32 bits of the mixed state.
pub open spec fn xorshift_out(s: u64) -> u64 {
    xorshift_next(s) & RAND_MAX
}

/// `a + (b - a) * r / RAND_MAX`: maps an output `r` in `[0, RAND_MAX]`
/// onto the closed interval `[a, b]`.
pub open spec fn sample_in(a: int, b: int, r: int) -> int {
    a + ((b - a) * r) / (RAND_MAX as int)
}

/// The sample map stays within its bounds: for any output `r` in
/// `[0, RAND_MAX]`, `sample_in(a, b, r)` lies in `[a, b]`.
pub proof fn lemma_sample_in_bounds(a: int, b: int, r: int)
    requires
        0 <= a <= b,
        0 <= r <= RAND_MAX,
    ensures
        a <= sample_in(a, b, r) <= b,
{
    let spn = b - a;
    let m = RAND_MAX as int;
    assert(spn * r >= 0) by (nonlinear_arith)
        requires spn >= 0 && r >= 0;
    lemma_mul_inequality(r, m, spn);
    assert(r * spn == spn * r) by (nonlinear_arith);
    assert(m * spn == spn * m) by (nonlinear_arith);
    lemma_div_is_ordered(spn * r, spn * m, m);
    lemma_div_multiples_vanish(spn, m);
    lemma_div_pos_is_pos(spn * r, m);
}

/// Deterministic pseudo-random generator (64-bit xorshift).
#[derive(Clone, Copy, PartialEq, Eq, Structural, Debug)]
pub struct RandomSource {
    pub state: u64,
}

impl RandomSource {
    /// A generator seeded with the fixed default seed.
    pub fn new() -> (r: RandomSource)
        ensures
            r.state == DEFAULT_SEED,
    {
        RandomSource { state: DEFAULT_SEED }
    }

    /// A generator seeded with an arbitrary non-zero seed.
    pub fn from_seed(seed: u64) -> (r: RandomSource)
        requires
            seed != 0,
        ensures
            r.state == seed,
    {
        RandomSource { state: seed }
    }

    /// Advance the state one round and return its low 32 bits.
    pub fn next_raw(&mut self) -> (r: u64)
        ensures
            final(self).state == xorshift_next(old(self).state),
            r == xorshift_out(old(self).state),
            r <= RAND_MAX,
    {
        let s0 = self.state;
        let s1 = s0 ^ (s0 << 7u64);
        let s2 = s1 ^ (s1 >> 9u64);
        let s3 = s2 ^ (s2 << 8u64);
        self.state = s3;
        let r = s3 & RAND_MAX;
        proof {
            assert(s3 & 0xFFFF_FFFFu64 <= 0xFFFF_FFFFu64) by (bit_vector);
        }
        r
    }

    /// A sample in `[a, b]`: `a + (b - a) * next_raw() / RAND_MAX`.
    pub fn between(&mut self, a: i64, b: i64) -> (r: i64)
        requires
            0 <= a <= b,
        ensures
            final(self).state == xorshift_next(old(self).state),
            r == sample_in(a as int, b as int, xorshift_out(old(self).state) as int),
            a <= r <= b,
    {
        let rnd = self.next_raw();
        let span = (b - a) as u128;
        proof {
            let spn = (b - a) as int;
            let rn = rnd as int;
            assert(spn * rn < 0x1_0000_0000_0000_0000_0000_0000) by (nonlinear_arith)
                requires 0 <= spn < 0x8000_0000_0000_0000 && 0 <= rn < 0x1_0000_0000;
        }
        let prod = span * (rnd as u128);
        let q = prod / (RAND_MAX as u128);
        proof {
            lemma_sample_in_bounds(a as int, b as int, rnd as int);
        }
        let qi = q as i64;
        a + qi
    }
}

} // verus!
