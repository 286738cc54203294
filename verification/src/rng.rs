//! A small deterministic pseudo-random number generator (SplitMix64).
//!
//! The trim search draws its candidate control settings from this generator,
//! so a fixed seed reproduces the search exactly.  Every step of the
//! generator is pinned down by a spec function, which lets the trim solver
//! name the initial population it drew in its own contract.

use vstd::prelude::*;

verus! {

/// Additive constant of the SplitMix64 state walk.
pub const GOLDEN_GAMMA: u64 = 0x9E37_79B9_7F4A_7C15;

/// Finalizer multiplier 1 of SplitMix64.
pub const MIX_MUL_1: u64 = 0xBF58_476D_1CE4_E5B9;

/// Finalizer multiplier 2 of SplitMix64.
pub const MIX_MUL_2: u64 = 0x94D0_49BB_1331_11EB;

/// The state reached from `s` by one generator step.
pub open spec fn next_state_spec(s: u64) -> u64 {
    s.wrapping_add(GOLDEN_GAMMA)
}

/// The SplitMix64 output finalizer applied to a state.
pub open spec fn mix_spec(s: u64) -> u64 {
    let z1 = (s ^ (s >> 30)).wrapping_mul(MIX_MUL_1);
    let z2 = (z1 ^ (z1 >> 27)).wrapping_mul(MIX_MUL_2);
    z2 ^ (z2 >> 31)
}

/// The state after `k` generator steps from `seed`.
pub open spec fn state_at(seed: u64, k: nat) -> u64
    decreases k,
{
    if k == 0 {
        seed
    } else {
        next_state_spec(state_at(seed, (k - 1) as nat))
    }
}

/// The raw output of draw number `k` (0-based) from `seed`.
pub open spec fn draw_at(seed: u64, k: nat) -> u64 {
    mix_spec(state_at(seed, k + 1))
}

/// The value in `[lo, hi]` that raw output `z` maps to.
pub open spec fn range_val(z: u64, lo: int, hi: int) -> int {
    lo + (z as int) % (hi - lo + 1)
}

/// SplitMix64 generator state.
pub struct SplitMix {
    pub state: u64,
}

impl SplitMix {
    /// A generator seeded with `seed`.
    pub fn new(seed: u64) -> (r: SplitMix)
        ensures
            r.state == seed,
    {
        SplitMix { state: seed }
    }

    /// The next raw 64-bit output.
    pub fn next_u64(&mut self) -> (r: u64)
        ensures
            final(self).state == next_state_spec(old(self).state),
            r == mix_spec(final(self).state),
    {
        self.state = self.state.wrapping_add(GOLDEN_GAMMA);
        let z0 = self.state;
        let z1 = (z0 ^ (z0 >> 30)).wrapping_mul(MIX_MUL_1);
        let z2 = (z1 ^ (z1 >> 27)).wrapping_mul(MIX_MUL_2);
        z2 ^ (z2 >> 31)
    }

    /// The next value, reduced to the inclusive range `[lo, hi]`.
    pub fn next_in_range(&mut self, lo: i64, hi: i64) -> (r: i64)
        requires
            lo <= hi,
            (hi as int) - (lo as int) < (i64::MAX as int),
        ensures
            final(self).state == next_state_spec(old(self).state),
            r as int == range_val(mix_spec(final(self).state), lo as int, hi as int),
            lo <= r <= hi,
    {
        let z = self.next_u64();
        let span = (hi.wrapping_sub(lo) as u64) + 1;
        proof {
            assert(span as int == hi as int - lo as int + 1);
        }
        let off = z % span;
        lo + (off as i64)
    }
}

} // verus!
