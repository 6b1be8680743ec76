//! Randomness as an explicit value.
//!
//! Every random draw the renderer makes flows through a [`Sampler`], whose
//! stepping is exactly specified: a `Pseudo` sampler is a linear congruential
//! stream, a `Fixed` sampler returns one constant forever (the stubbed source
//! the determinism law and tests use). The only unspecified operation is
//! seeding a `Pseudo` sampler from the process's entropy.

use vstd::prelude::*;

use crate::fixed::{fx_wf, Fx};

verus! {

/// Relies on rand's `random` for seeding only; nothing is promised of the
/// value it returns.
pub assume_specification<T>[ rand::random::<T> ]() -> (r: T)
    where
        rand::distributions::Standard: rand::distributions::Distribution<T>,
;

/// Multiplier of the congruential step (Knuth's MMIX constant).
pub const LCG_MUL: u64 = 6364136223846793005;

/// Increment of the congruential step (Knuth's MMIX constant).
pub const LCG_ADD: u64 = 1442695040888963407;

/// A deterministic stream of draws.
#[derive(Clone, Copy, Debug, PartialEq, Eq, Structural)]
pub enum Sampler {
    /// Every draw returns this constant and leaves the sampler unchanged.
    Fixed(u64),
    /// A linear congruential pseudo-random stream over the current state.
    Pseudo(u64),
}

impl Sampler {
    /// The state after one draw.
    pub open spec fn spec_step(self) -> Sampler {
        match self {
            Sampler::Fixed(_) => self,
            Sampler::Pseudo(st) => Sampler::Pseudo(
                (((st * LCG_MUL) + LCG_ADD) % 0x1_0000_0000_0000_0000) as u64,
            ),
        }
    }

    /// The value one draw returns.
    pub open spec fn spec_out(self) -> u64 {
        match self {
            Sampler::Fixed(k) => k,
            Sampler::Pseudo(st) => (((st * LCG_MUL) + LCG_ADD) % 0x1_0000_0000_0000_0000) as u64,
        }
    }

    /// A pseudo-random sampler seeded from the process's thread-local entropy.
    /// Nothing is promised of the seed; everything after it is deterministic.
    pub fn from_entropy() -> (r: Sampler)
        ensures
            r is Pseudo,
    {
        Sampler::Pseudo(rand::random::<u64>())
    }

    /// Draw one raw value.
    pub fn next_u64(&mut self) -> (r: u64)
        ensures
            *final(self) == old(self).spec_step(),
            r == old(self).spec_out(),
    {
        let cur = *self;
        match cur {
            Sampler::Fixed(k) => k,
            Sampler::Pseudo(st) => {
                let wide: u128 = (st as u128) * (LCG_MUL as u128) + (LCG_ADD as u128);
                let n: u64 = (wide % 0x1_0000_0000_0000_0000u128) as u64;
                proof {
                    assert(wide as int == (st as int) * (LCG_MUL as int) + LCG_ADD as int);
                }
                *self = Sampler::Pseudo(n);
                n
            },
        }
    }

    /// The scalar in `[0, 1)` one draw yields: the draw's top 16 bits, the
    /// best-distributed bits of the congruential stream.
    pub open spec fn spec_unit(self) -> Fx {
        Fx { raw: (self.spec_out() / 0x1_0000_0000_0000) as i64 }
    }

    /// Draw a scalar in `[0, 1)`.
    pub fn next_unit(&mut self) -> (r: Fx)
        ensures
            *final(self) == old(self).spec_step(),
            r == old(self).spec_unit(),
            fx_wf(r),
            0 <= r.raw < 65536,
    {
        let v = self.next_u64();
        Fx { raw: (v / 0x1_0000_0000_0000u64) as i64 }
    }

    /// The scalar in `[-1, 1)` one draw yields: the draw's top 17 bits,
    /// recentered.
    pub open spec fn spec_symmetric(self) -> Fx {
        Fx { raw: ((self.spec_out() / 0x8000_0000_0000) as i64 - 65536) as i64 }
    }

    /// Draw a scalar in `[-1, 1)`.
    pub fn next_symmetric(&mut self) -> (r: Fx)
        ensures
            *final(self) == old(self).spec_step(),
            r == old(self).spec_symmetric(),
            fx_wf(r),
            -65536 <= r.raw < 65536,
    {
        let v = self.next_u64();
        Fx { raw: (v / 0x8000_0000_0000u64) as i64 - 65536 }
    }
}

} // verus!
