//! The advancing time accumulator.
//!
//! The accumulator tracks fractional sample-time exactly, as a signed whole
//! part (the floor of the value) and a 32-bit binary fraction, so that
//! frequency-derived steps of the form `f / r` accumulate without drift at a
//! resolution of 2^-32. A per-sample step carries the same fixed-point shape.
//!
//! Wraparound policy: when a step would carry the whole part past
//! `i64::MAX`, the accumulator is reset to exactly `i64::MIN` (with a zero
//! fraction) rather than wrapping modulo the full range or clamping; the
//! advance stays monotone on either side of that single discontinuity.

use vstd::prelude::*;

verus! {

/// The units of one whole time index, as counted by the 32-bit fraction.
pub open spec fn frac_unit() -> int {
    0x1_0000_0000
}

/// One per-sample advance of the time accumulator, in whole time indices and
/// a 32-bit binary fraction: the step stands for `whole + frac / 2^32`.
#[derive(Clone, Copy)]
pub struct TimeStep {
    pub whole: u32,
    pub frac: u32,
}

/// The time accumulator: `whole` is the floor of the tracked value and
/// `frac` its 32-bit binary fraction, so the value is `whole + frac / 2^32`.
#[derive(Clone, Copy)]
pub struct TimeAcc {
    pub whole: i64,
    pub frac: u32,
}

/// The exact value of a step, in units of 2^-32.
pub open spec fn step_units(s: TimeStep) -> int {
    s.whole * frac_unit() + s.frac
}

/// The exact value of the accumulator, in units of 2^-32.
pub open spec fn acc_units(a: TimeAcc) -> int {
    a.whole * frac_unit() + a.frac
}

/// One advance of the accumulator by one step, with the wraparound policy:
/// exact fixed-point addition, except that a whole part past `i64::MAX`
/// resets the accumulator to exactly `i64::MIN`.
pub open spec fn spec_advance(a: TimeAcc, s: TimeStep) -> TimeAcc {
    let f = a.frac + s.frac;
    let carry: int = if f >= frac_unit() {
        1
    } else {
        0
    };
    let w = a.whole + s.whole + carry;
    if w > i64::MAX {
        TimeAcc { whole: i64::MIN, frac: 0 }
    } else {
        TimeAcc { whole: w as i64, frac: (f - carry * frac_unit()) as u32 }
    }
}

/// The accumulator after the first `n` steps of `steps` have been applied.
pub open spec fn spec_advance_n(a: TimeAcc, steps: Seq<TimeStep>, n: int) -> TimeAcc
    decreases n,
{
    if n <= 0 {
        a
    } else {
        spec_advance(spec_advance_n(a, steps, n - 1), steps[n - 1])
    }
}

/// The integer time index the accumulator stands at: its value truncated
/// toward zero, which is the floor for a nonnegative value and one above it
/// for a negative value with a nonzero fraction.
pub open spec fn spec_trunc(a: TimeAcc) -> i64 {
    if a.whole < 0 && a.frac > 0 {
        (a.whole + 1) as i64
    } else {
        a.whole
    }
}

/// The integer time emitted for sample `i` of a block: the truncation of the
/// accumulator after `i` advances, the step being drawn before each advance.
pub open spec fn spec_time_at(a: TimeAcc, steps: Seq<TimeStep>, i: int) -> i64 {
    spec_trunc(spec_advance_n(a, steps, i))
}

impl TimeAcc {
    /// The accumulator at time zero.
    pub fn zero() -> (r: TimeAcc)
        ensures
            r == (TimeAcc { whole: 0i64, frac: 0u32 }),
    {
        TimeAcc { whole: 0, frac: 0 }
    }

    /// The integer time index, truncated toward zero.
    pub fn trunc(&self) -> (r: i64)
        ensures
            r == spec_trunc(*self),
    {
        if self.whole < 0 && self.frac > 0 {
            self.whole + 1
        } else {
            self.whole
        }
    }

    /// Advances the accumulator by one step, wrapping to `i64::MIN` when the
    /// whole part would pass `i64::MAX`.
    pub fn advance(&mut self, s: TimeStep)
        ensures
            *final(self) == spec_advance(*old(self), s),
    {
        let f: u64 = self.frac as u64 + s.frac as u64;
        let carry: i64 = if f >= 0x1_0000_0000u64 {
            1
        } else {
            0
        };
        let new_frac: u64 = if f >= 0x1_0000_0000u64 {
            f - 0x1_0000_0000u64
        } else {
            f
        };
        match self.whole.checked_add(s.whole as i64 + carry) {
            Some(w) => {
                self.whole = w;
                self.frac = new_frac as u32;
            },
            None => {
                self.whole = i64::MIN;
                self.frac = 0;
            },
        }
    }
}

/// Fills the leading `steps.len()` slots of `ts` with the integer time
/// values of one block: slot `i` holds the truncation of the accumulator
/// after `i` advances, and the accumulator is left advanced past the whole
/// block. Slots beyond the block keep their old contents.
pub fn fill_block(acc: &mut TimeAcc, steps: &Vec<TimeStep>, ts: &mut Vec<i64>)
    requires
        steps@.len() <= old(ts)@.len(),
    ensures
        final(ts)@.len() == old(ts)@.len(),
        forall|i: int| 0 <= i < steps@.len() ==> final(ts)@[i] == spec_time_at(*old(acc), steps@, i),
        forall|i: int| steps@.len() <= i < final(ts)@.len() ==> final(ts)@[i] == old(ts)@[i],
        *final(acc) == spec_advance_n(*old(acc), steps@, steps@.len() as int),
{
    let n = steps.len();
    let mut i: usize = 0;
    while i < n
        invariant
            i <= n,
            n == steps@.len(),
            n <= ts@.len(),
            ts@.len() == old(ts)@.len(),
            *acc == spec_advance_n(*old(acc), steps@, i as int),
            forall|j: int| 0 <= j < i ==> ts@[j] == spec_time_at(*old(acc), steps@, j),
            forall|j: int| i <= j < ts@.len() ==> ts@[j] == old(ts)@[j],
        decreases n - i,
    {
        let tv = acc.trunc();
        ts.set(i, tv);
        acc.advance(steps[i]);
        i += 1;
    }
}

} // verus!
