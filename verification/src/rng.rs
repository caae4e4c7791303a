//! A deterministic linear-congruential random source.
//!
//! Each draw advances the 64-bit state by a fixed affine step and hands out
//! the top 16 bits, a fixed-point value in `[0, DIR_ONE)`.  The estimator
//! owns its generator exclusively for the duration of a call, so the whole
//! random sequence is a pure function of the seed — which is what makes the
//! averaging law provable and the tests reproducible.

use vstd::prelude::*;
use crate::vec3::DIR_ONE;

verus! {

/// Multiplier of the linear-congruential step.
pub const RAND_MULT: u64 = 6364136223846793005;

/// Increment of the linear-congruential step.
pub const RAND_INC: u64 = 1442695040888963407;

/// The state that follows `s`: `(RAND_MULT * s + RAND_INC) mod 2^64`.
pub open spec fn spec_next_state(s: u64) -> u64 {
    ((RAND_MULT * s + RAND_INC) % 0x1_0000_0000_0000_0000) as u64
}

/// The value handed out at state `s`: its top 16 bits, in `[0, DIR_ONE)`.
pub open spec fn spec_rand_value(s: u64) -> u64 {
    (s / 0x1_0000_0000_0000) as u64
}

/// A seeded random-number source.  The state is public so that contracts
/// can speak of the exact draw sequence.
#[derive(Clone, Copy, PartialEq, Eq, Structural, Debug)]
pub struct RandGen {
    pub state: u64,
}

impl RandGen {
    /// A generator starting at `seed`.
    pub fn new(seed: u64) -> (r: RandGen)
        ensures
            r.state == seed,
    {
        RandGen { state: seed }
    }

    /// Draw the next value: advance the state once and return a fixed-point
    /// number in `[0, DIR_ONE)`.
    pub fn gen(&mut self) -> (u: u64)
        ensures
            final(self).state == spec_next_state(old(self).state),
            u == spec_rand_value(final(self).state),
            u < DIR_ONE as u64,
    {
        proof {
            assert((RAND_MULT as int) * (self.state as int)
                <= (RAND_MULT as int) * (u64::MAX as int)) by (nonlinear_arith)
                requires
                    self.state <= u64::MAX,
            ;
        }
        let t: u128 = (RAND_MULT as u128) * (self.state as u128) + (RAND_INC as u128);
        let s: u64 = (t % 0x1_0000_0000_0000_0000u128) as u64;
        self.state = s;
        s / 0x1_0000_0000_0000
    }
}

} // verus!
