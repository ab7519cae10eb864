//! Minimal deterministic pseudo-random number generation.
//!
//! A linear-congruential step over `u64` with fixed multiply-add constants.
//! The caller owns and threads the state explicitly, so the produced stream
//! is a pure function of the initial state; this is the foundation of every
//! reproducibility guarantee in the crate.

use vstd::prelude::*;

verus! {

/// Multiplier of the linear-congruential step.
pub const LCG_MUL: u64 = 6364136223846793005;

/// Increment of the linear-congruential step.
pub const LCG_ADD: u64 = 1442695040888963407;

/// The successor state of the linear-congruential generator.
pub open spec fn spec_lcg(state: u64) -> u64 {
    vstd::wrapping::u64_specs::wrapping_add(
        vstd::wrapping::u64_specs::wrapping_mul(state, LCG_MUL),
        LCG_ADD,
    )
}

/// Advance the generator one step: multiply-add with wrap on overflow.
pub fn lcg(state: u64) -> (r: u64)
    ensures
        r == spec_lcg(state),
{
    state.wrapping_mul(LCG_MUL).wrapping_add(LCG_ADD)
}

} // verus!
