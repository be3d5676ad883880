//! Periodic loudness metric for level metering.
//!
//! The mixing engine folds every mixed sample into an accumulator of
//! squares; once per window it publishes the root mean square of the
//! window and starts over. At 48 kHz the window length gives roughly
//! twenty-three updates per second.

use vstd::prelude::*;
use crate::sample::{in_range, FULL_SCALE};

verus! {

/// Samples per metering window.
pub const LEVEL_WINDOW: u32 = 2048;

/// `r` is the integer square root of `x`, rounded down.
pub open spec fn is_isqrt(x: int, r: int) -> bool {
    r >= 0 && r * r <= x && x < (r + 1) * (r + 1)
}

/// The integer square root, rounded down; meaningful for `x >= 0`.
pub open spec fn sqrt_floor(x: int) -> int {
    choose|r: int| is_isqrt(x, r)
}

/// Every nonnegative integer has an integer square root.
pub proof fn lemma_isqrt_exists(x: int) -> (r: int)
    requires
        x >= 0,
    ensures
        is_isqrt(x, r),
    decreases x,
{
    if x == 0 {
        assert(is_isqrt(0, 0));
        0
    } else {
        let p = lemma_isqrt_exists(x - 1);
        if x < (p + 1) * (p + 1) {
            assert(is_isqrt(x, p));
            p
        } else {
            assert(x == (p + 1) * (p + 1)) by (nonlinear_arith)
                requires
                    p * p <= x - 1 < (p + 1) * (p + 1),
                    x >= (p + 1) * (p + 1),
            ;
            assert((p + 1) * (p + 1) < (p + 2) * (p + 2)) by (nonlinear_arith)
                requires
                    p >= 0,
            ;
            assert(is_isqrt(x, p + 1));
            p + 1
        }
    }
}

/// The integer square root is unique.
pub proof fn lemma_isqrt_unique(x: int, a: int, b: int)
    requires
        is_isqrt(x, a),
        is_isqrt(x, b),
    ensures
        a == b,
{
    assert(a == b) by (nonlinear_arith)
        requires
            a >= 0 && a * a <= x && x < (a + 1) * (a + 1),
            b >= 0 && b * b <= x && x < (b + 1) * (b + 1),
    ;
}

/// Integer square root, rounded down.
pub fn isqrt(x: u64) -> (r: u64)
    ensures
        is_isqrt(x as int, r as int),
        r as int == sqrt_floor(x as int),
{
    let mut lo: u64 = 0;
    let mut hi: u64 = 0x1_0000_0000;
    proof {
        assert((hi as int) * (hi as int) > x as int) by (nonlinear_arith)
            requires
                hi == 0x1_0000_0000u64,
                x <= u64::MAX,
        ;
    }
    while lo + 1 < hi
        invariant
            lo < hi,
            hi <= 0x1_0000_0000u64,
            (lo as int) * (lo as int) <= x as int,
            (hi as int) * (hi as int) > x as int,
        decreases hi - lo,
    {
        let mid: u64 = lo + (hi - lo) / 2;
        proof {
            assert((mid as int) * (mid as int) <= 0x1_0000_0000_0000_0000) by (nonlinear_arith)
                requires
                    0 <= mid <= 0x1_0000_0000u64,
            ;
        }
        if (mid as u128) * (mid as u128) <= x as u128 {
            lo = mid;
        } else {
            hi = mid;
        }
    }
    proof {
        let w = lemma_isqrt_exists(x as int);
        assert(is_isqrt(x as int, sqrt_floor(x as int)));
        lemma_isqrt_unique(x as int, sqrt_floor(x as int), lo as int);
    }
    lo
}

/// The mathematical state of the meter: the accumulated squares, how many
/// samples of the current window they cover, and the last published level.
pub struct MeterView {
    pub sum_sq: int,
    pub count: int,
    pub level: int,
}

/// One mixed sample folded into the meter; on the window boundary the
/// level is published as the root mean square of the window and the
/// accumulator starts over.
pub open spec fn meter_step(m: MeterView, s: int) -> MeterView {
    let sum = m.sum_sq + s * s;
    if m.count + 1 == LEVEL_WINDOW as int {
        MeterView { sum_sq: 0, count: 0, level: sqrt_floor(sum / (LEVEL_WINDOW as int)) }
    } else {
        MeterView { sum_sq: sum, count: m.count + 1, level: m.level }
    }
}

/// A block of mixed samples folded into the meter in order.
pub open spec fn meter_fold(m: MeterView, xs: Seq<i32>) -> MeterView
    decreases xs.len(),
{
    if xs.len() == 0 {
        m
    } else {
        meter_fold(meter_step(m, xs[0] as int), xs.drop_first())
    }
}

/// Folding a block and then one more sample is folding the extended block.
pub proof fn lemma_meter_fold_push(m: MeterView, xs: Seq<i32>, x: i32)
    ensures
        meter_fold(m, xs.push(x)) == meter_step(meter_fold(m, xs), x as int),
    decreases xs.len(),
{
    reveal_with_fuel(meter_fold, 3);
    if xs.len() == 0 {
        assert(xs.push(x)[0] == x);
        assert(xs.push(x).drop_first() =~= Seq::<i32>::empty());
    } else {
        assert(xs.push(x)[0] == xs[0]);
        assert(xs.push(x).drop_first() =~= xs.drop_first().push(x));
        lemma_meter_fold_push(meter_step(m, xs[0] as int), xs.drop_first(), x);
    }
}

/// The running loudness meter.
pub struct LevelMeter {
    sum_sq: u64,
    count: u32,
    level: u64,
}

impl View for LevelMeter {
    type V = MeterView;

    closed spec fn view(&self) -> MeterView {
        MeterView { sum_sq: self.sum_sq as int, count: self.count as int, level: self.level as int }
    }
}

impl LevelMeter {
    #[verifier::type_invariant]
    spec fn well_formed(&self) -> bool {
        &&& self.count < LEVEL_WINDOW
        &&& self.sum_sq <= (self.count as int) * (FULL_SCALE as int) * (FULL_SCALE as int)
    }

    /// A meter at the start of its first window, with no level published.
    pub fn new() -> (m: LevelMeter)
        ensures
            m@ == (MeterView { sum_sq: 0, count: 0, level: 0 }),
    {
        LevelMeter { sum_sq: 0, count: 0, level: 0 }
    }

    /// The most recently published level.
    pub fn level(&self) -> (l: u64)
        ensures
            l == self@.level,
    {
        self.level
    }

    /// Fold one mixed (hence in-range) sample into the meter.
    pub fn add_sample(&mut self, s: i32)
        requires
            in_range(s as int),
        ensures
            final(self)@ == meter_step(old(self)@, s as int),
    {
        proof {
            use_type_invariant(&*self);
            assert(0 <= (s as int) * (s as int) <= (FULL_SCALE as int) * (FULL_SCALE as int))
                by (nonlinear_arith)
                requires
                    in_range(s as int),
            ;
            assert(0 <= (self.count as int) * (FULL_SCALE as int) * (FULL_SCALE as int) <= (
            self.count as int + 1) * (FULL_SCALE as int) * (FULL_SCALE as int) <= (
            LEVEL_WINDOW as int) * (FULL_SCALE as int) * (FULL_SCALE as int))
                by (nonlinear_arith)
                requires
                    0 <= self.count < LEVEL_WINDOW,
            ;
        }
        let sq: u64 = (s as i64 * s as i64) as u64;
        let sum: u64 = self.sum_sq + sq;
        if self.count + 1 == LEVEL_WINDOW {
            let avg: u64 = sum / (LEVEL_WINDOW as u64);
            let lvl = isqrt(avg);
            self.sum_sq = 0;
            self.count = 0;
            self.level = lvl;
        } else {
            self.count = self.count + 1;
            self.sum_sq = sum;
        }
    }
}

} // verus!
