//! A small deterministic pseudo-random generator.
//!
//! Every random draw the renderer makes comes from this xorshift generator,
//! so a whole render is a function of the scene, the camera and one seed.
//! Each rendering task gets its own generator, seeded from the run seed and
//! the row index; fresh seeds can be taken from the process entropy source.

use vstd::prelude::*;
use crate::fixed::Fixed;

verus! {

/// The xorshift state transition.
pub open spec fn rng_step(s: u64) -> u64 {
    let a = s ^ (s << 13);
    let b = a ^ (a >> 7);
    b ^ (b << 17)
}

/// The fraction in `[0, 1)` drawn from a state: the top 16 bits as a raw
/// fixed-point value.
pub open spec fn frac_of(s: u64) -> Fixed {
    Fixed { r: (s >> 48) as i64 }
}

/// The jitter offset in `[-1/2, 1/2)` drawn from a state.
pub open spec fn jitter_of(s: u64) -> Fixed {
    Fixed { r: ((s >> 48) - 32768) as i64 }
}

/// The symmetric value in `[-1, 1)` drawn from a state: the top 17 bits,
/// recentered.
pub open spec fn symmetric_of(s: u64) -> Fixed {
    Fixed { r: ((s >> 47) - 65536) as i64 }
}

/// A xorshift pseudo-random generator.
#[derive(Clone, Copy, PartialEq, Eq, Structural, Debug)]
pub struct Rng {
    pub state: u64,
}

impl Rng {
    /// Builds a generator from a seed; a zero seed (a fixed point of the
    /// transition) is replaced by a fixed odd constant.
    pub fn from_seed(seed: u64) -> (res: Rng)
        ensures
            res.state == (if seed == 0 {
                0x9e37_79b9_7f4a_7c15u64
            } else {
                seed
            }),
    {
        if seed == 0 {
            Rng { state: 0x9e37_79b9_7f4a_7c15u64 }
        } else {
            Rng { state: seed }
        }
    }

    /// Builds a generator seeded from the process entropy source.
    pub fn from_entropy() -> (res: Rng)
        ensures
            res.state != 0,
    {
        let seed = entropy_u64();
        let res = Rng::from_seed(seed);
        proof {
            assert(res.state != 0);
        }
        res
    }

    /// Advances the generator and returns the new state.
    pub fn next_state(&mut self) -> (res: u64)
        ensures
            final(self).state == rng_step(old(self).state),
            res == rng_step(old(self).state),
    {
        let s = self.state;
        let a = s ^ (s << 13u64);
        let b = a ^ (a >> 7u64);
        let c = b ^ (b << 17u64);
        self.state = c;
        c
    }

    /// Draws a fraction in `[0, 1)`.
    pub fn next_fraction(&mut self) -> (res: Fixed)
        ensures
            final(self).state == rng_step(old(self).state),
            res == frac_of(rng_step(old(self).state)),
            0 <= res.r < 65536,
    {
        let s = self.next_state();
        let top = s >> 48u64;
        proof {
            assert(s >> 48u64 < 65536u64) by (bit_vector);
        }
        Fixed { r: top as i64 }
    }

    /// Draws a jitter offset in `[-1/2, 1/2)`.
    pub fn next_jitter(&mut self) -> (res: Fixed)
        ensures
            final(self).state == rng_step(old(self).state),
            res == jitter_of(rng_step(old(self).state)),
            -32768 <= res.r < 32768,
    {
        let s = self.next_state();
        let top = s >> 48u64;
        proof {
            assert(s >> 48u64 < 65536u64) by (bit_vector);
        }
        Fixed { r: top as i64 - 32768 }
    }

    /// Draws a symmetric value in `[-1, 1)`.
    pub fn next_symmetric(&mut self) -> (res: Fixed)
        ensures
            final(self).state == rng_step(old(self).state),
            res == symmetric_of(rng_step(old(self).state)),
            -65536 <= res.r < 65536,
    {
        let s = self.next_state();
        let top = s >> 47u64;
        proof {
            assert(s >> 47u64 < 131072u64) by (bit_vector);
        }
        Fixed { r: top as i64 - 65536 }
    }
}

/// Relies on `rand::random` with the `StandardUniform` distribution to draw
/// one machine word from the thread-local generator; nothing is assumed of
/// the value.
#[verifier::external_body]
fn entropy_u64() -> u64 {
    rand::random::<u64>()
}

} // verus!
