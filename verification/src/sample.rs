//! Fixed-point audio samples and the two-source mixing rule.
//!
//! A sample is an `i32`; `FULL_SCALE` stands for an amplitude of one.
//! Mixing is the additive combination of exactly two sources, hard-clipped
//! to the representable range `[-FULL_SCALE, FULL_SCALE]` — no gain staging.

use vstd::prelude::*;

verus! {

/// The fixed-point value standing for an amplitude of one.
pub const FULL_SCALE: i32 = 1_000_000;

/// Hard clip to the representable sample range.
pub open spec fn clip(v: int) -> int {
    if v > FULL_SCALE as int {
        FULL_SCALE as int
    } else if v < -(FULL_SCALE as int) {
        -(FULL_SCALE as int)
    } else {
        v
    }
}

/// A value already inside the representable range.
pub open spec fn in_range(v: int) -> bool {
    -(FULL_SCALE as int) <= v <= FULL_SCALE as int
}

/// Additive mix of one tick from each source, hard-clipped.
pub fn mix(a: i32, b: i32) -> (r: i32)
    ensures
        r as int == clip(a as int + b as int),
{
    let sum: i64 = a as i64 + b as i64;
    if sum > FULL_SCALE as i64 {
        FULL_SCALE
    } else if sum < -(FULL_SCALE as i64) {
        -FULL_SCALE
    } else {
        sum as i32
    }
}

/// Mixing is commutative, and its result is the clipped sum and always in
/// range; on in-range inputs whose sum is in range it is the exact sum.
pub proof fn lemma_mix_commutative_clipped(a: int, b: int)
    ensures
        clip(a + b) == clip(b + a),
        in_range(clip(a + b)),
        in_range(a + b) ==> clip(a + b) == a + b,
{
}

/// Mixing with silence returns an in-range sample unchanged.
pub proof fn lemma_mix_silence(a: int)
    requires
        in_range(a),
    ensures
        clip(a + 0) == a,
{
}

} // verus!
