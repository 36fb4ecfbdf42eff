//! The engine's laws: properties that hold of every input, stated over the
//! same spec functions the component contracts use and proved once and for
//! all.

use vstd::prelude::*;

use crate::engine::spec_out_at;
use crate::expr::Expr;
use crate::norm::lemma_norm_bounded;
use crate::time::TimeAcc;
use crate::time::TimeStep;
use crate::time::acc_units;
use crate::time::frac_unit;
use crate::time::spec_advance;
use crate::time::spec_advance_n;
use crate::time::spec_time_at;
use crate::time::step_units;

verus! {

/// Law: while no wraparound occurs, one advance adds the step's exact value
/// to the accumulator — fixed-point accumulation has no drift.
pub proof fn lemma_advance_exact(b: TimeAcc, s: TimeStep)
    requires
        acc_units(b) + step_units(s) < (i64::MAX + 1) * frac_unit(),
    ensures
        acc_units(spec_advance(b, s)) == acc_units(b) + step_units(s),
{
    let f = b.frac + s.frac;
    let carry: int = if f >= frac_unit() {
        1
    } else {
        0
    };
    let w = b.whole + s.whole + carry;
    assert(acc_units(b) + step_units(s) == w * frac_unit() + (f - carry * frac_unit()));
    assert(w <= i64::MAX);
}

/// Law: an advance that would carry the whole part past the maximum
/// representable time yields exactly the minimum representable time, with a
/// zero fraction — the documented wraparound policy, a single intentional
/// discontinuity rather than an overflow.
pub proof fn lemma_advance_wraps(b: TimeAcc, s: TimeStep)
    requires
        acc_units(b) + step_units(s) >= (i64::MAX + 1) * frac_unit(),
    ensures
        spec_advance(b, s) == (TimeAcc { whole: i64::MIN, frac: 0u32 }),
{
    let f = b.frac + s.frac;
    let carry: int = if f >= frac_unit() {
        1
    } else {
        0
    };
    let w = b.whole + s.whole + carry;
    assert(acc_units(b) + step_units(s) == w * frac_unit() + (f - carry * frac_unit()));
    assert(w > i64::MAX);
}

/// Law: driving the accumulator to the maximum representable integer time
/// and advancing once more (by at least one whole time index) yields the
/// minimum representable integer time; and advancement past the wrap stays
/// monotone, since by [`lemma_advance_exact`] every later advance adds its
/// nonnegative step exactly until the next wrap.
pub proof fn lemma_wraparound_at_max(a: TimeAcc, s: TimeStep)
    requires
        a.whole == i64::MAX,
        step_units(s) >= frac_unit(),
    ensures
        spec_advance(a, s) == (TimeAcc { whole: i64::MIN, frac: 0u32 }),
        forall|s2: TimeStep|
            acc_units(#[trigger] spec_advance(spec_advance(a, s), s2)) == acc_units(
                spec_advance(a, s),
            ) + step_units(s2),
{
    lemma_advance_wraps(a, s);
    assert forall|s2: TimeStep|
        acc_units(#[trigger] spec_advance(spec_advance(a, s), s2)) == acc_units(
            spec_advance(a, s),
        ) + step_units(s2) by {
        lemma_advance_exact(spec_advance(a, s), s2);
    }
}

/// With a constant step and no wraparound, the accumulator after `i`
/// advances holds exactly the start value plus `i` steps.
pub proof fn lemma_uniform_acc_units(a: TimeAcc, steps: Seq<TimeStep>, s: TimeStep, i: int)
    requires
        0 <= i <= steps.len(),
        forall|j: int| 0 <= j < i ==> steps[j] == s,
        acc_units(a) + i * step_units(s) < (i64::MAX + 1) * frac_unit(),
    ensures
        acc_units(spec_advance_n(a, steps, i)) == acc_units(a) + i * step_units(s),
    decreases i,
{
    if i > 0 {
        let su = step_units(s);
        assert((i - 1) * su == i * su - su) by (nonlinear_arith);
        assert((i - 1) * su <= i * su) by (nonlinear_arith)
            requires
                su >= 0,
                i >= 1,
        ;
        lemma_uniform_acc_units(a, steps, s, i - 1);
        lemma_advance_exact(spec_advance_n(a, steps, i - 1), s);
    }
}

/// Law: with the frequency held constant, so that every per-sample step is
/// the same step `s`, and no wraparound in reach, the time value of sample
/// `i` of a block is exactly the truncation of the continuously accumulated
/// value `a + i * s` — successive entries match the accumulated increment
/// exactly after truncation, with no per-sample rounding drift.
pub proof fn lemma_uniform_time_values(a: TimeAcc, steps: Seq<TimeStep>, s: TimeStep, n: int)
    requires
        0 <= n <= steps.len(),
        forall|j: int| 0 <= j < n ==> steps[j] == s,
        0 <= acc_units(a),
        acc_units(a) + n * step_units(s) < (i64::MAX + 1) * frac_unit(),
    ensures
        forall|i: int|
            0 <= i <= n ==> #[trigger] spec_time_at(a, steps, i) == (acc_units(a) + i
                * step_units(s)) / frac_unit(),
{
    let su = step_units(s);
    assert forall|i: int|
        0 <= i <= n implies #[trigger] spec_time_at(a, steps, i) == (acc_units(a) + i * su)
        / frac_unit() by {
        assert(0 <= i * su && i * su <= n * su) by (nonlinear_arith)
            requires
                su >= 0,
                0 <= i <= n,
        ;
        lemma_uniform_acc_units(a, steps, s, i);
        let b = spec_advance_n(a, steps, i);
        assert(acc_units(b) == b.whole * frac_unit() + b.frac);
        assert(b.whole == acc_units(b) / frac_unit());
    }
}

/// Law: every rendered output numerator lies in `[-127, 128]`, strictly
/// inside the denominator 254, so every normalized output sample lies in
/// `[-1, 1)` after trim, whatever the formula, the accumulator and the
/// steps — the trim factor exactly halves the pre-trim range.
pub proof fn lemma_output_in_range(e: Expr, a: TimeAcc, steps: Seq<TimeStep>, i: int)
    ensures
        -127 <= spec_out_at(e, a, steps, i) <= 128,
        -254 < spec_out_at(e, a, steps, i) < 254,
{
    lemma_norm_bounded(crate::expr::spec_sample(e, spec_time_at(a, steps, i)));
}

/// Law: a reset accumulator starts the next block at time value zero: the
/// first time value rendered from it is `0`, whatever the steps.
pub proof fn lemma_first_time_after_reset(steps: Seq<TimeStep>)
    ensures
        spec_time_at(TimeAcc { whole: 0i64, frac: 0u32 }, steps, 0) == 0,
{
}

} // verus!
