//! Deterministic pseudo-random sampling.
//!
//! Every randomized routine takes an explicit generator handle, so a render
//! is a pure function of the seed: reruns with the same seed reproduce the
//! same image exactly.

use vstd::prelude::*;

use crate::fixed::Fp;
use crate::fixed::FP_SCALE;
use crate::fixed::fp_in_range;

verus! {

/// Xorshift generator state.
pub struct Rng {
    pub state: u64,
}

/// One xorshift step of the generator state.
pub open spec fn rng_step_s(s: u64) -> u64 {
    let a = s ^ (s << 13);
    let b = a ^ (a >> 7);
    b ^ (b << 17)
}

/// The unit-interval sample drawn from a state: sixteen of its bits,
/// placed in [0, 1) as a fixed-point value.
pub open spec fn rng_unit_s(s: u64) -> int {
    ((s >> 24) & 0xffff) as int
}

impl Rng {
    /// A generator seeded for reproducible sampling. A zero seed is
    /// replaced, since the all-zero state is a fixed point of the step.
    pub fn new(seed: u64) -> (r: Rng)
        ensures
            r.state == if seed == 0 {
                0x9e3779b97f4a7c15u64
            } else {
                seed
            },
    {
        if seed == 0 {
            Rng { state: 0x9e3779b97f4a7c15 }
        } else {
            Rng { state: seed }
        }
    }

    /// Advance the generator one step and return the new raw state.
    pub fn next_u64(&mut self) -> (r: u64)
        ensures
            final(self).state == rng_step_s(old(self).state),
            r == rng_step_s(old(self).state),
    {
        let s = self.state;
        let a = s ^ (s << 13);
        let b = a ^ (a >> 7);
        let c = b ^ (b << 17);
        self.state = c;
        c
    }

    /// Draw a fixed-point sample in [0, 1).
    pub fn next_unit(&mut self) -> (r: Fp)
        ensures
            final(self).state == rng_step_s(old(self).state),
            r as int == rng_unit_s(rng_step_s(old(self).state)),
            0 <= r < FP_SCALE,
            fp_in_range(r as int),
    {
        let c = self.next_u64();
        let bits = (c >> 24) & 0xffff;
        proof {
            assert((c >> 24) & 0xffff < 0x10000) by (bit_vector);
        }
        bits as i64
    }
}

} // verus!
