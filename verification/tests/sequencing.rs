//! Time sequencing: fixed-point accumulation, truncation, block filling,
//! and the wraparound policy at the ends of the representable time range.

use byte_beats::time::TimeAcc;
use byte_beats::time::TimeStep;
use byte_beats::time::fill_block;

/// The step a frequency of `f` Hz makes at a sample rate of `r` Hz:
/// `f / r` whole time indices per sample, in Q32.32 fixed point.
fn step_of(f: f64, r: f64) -> TimeStep {
    let units = (f / r * 4294967296.0).round() as u64;
    TimeStep { whole: (units >> 32) as u32, frac: (units & 0xFFFF_FFFF) as u32 }
}

#[test]
fn constant_sixth_step_crosses_after_six_samples() {
    // A frequency of 8000 Hz at a sample rate of 48000 Hz advances time by
    // one sixth per sample: starting from zero the integer time stays 0 for
    // six samples and reaches 1 on the seventh.
    let step = step_of(8000.0, 48000.0);
    assert_eq!(step.whole, 0);
    assert_eq!(step.frac, 715827883);
    let steps = vec![step; 7];
    let mut acc = TimeAcc::zero();
    let mut ts = vec![0i64; 7];
    fill_block(&mut acc, &steps, &mut ts);
    assert_eq!(ts, vec![0, 0, 0, 0, 0, 0, 1]);
}

#[test]
fn constant_half_step_alternates() {
    let step = TimeStep { whole: 0, frac: 0x8000_0000 };
    let steps = vec![step; 8];
    let mut acc = TimeAcc::zero();
    let mut ts = vec![0i64; 8];
    fill_block(&mut acc, &steps, &mut ts);
    assert_eq!(ts, vec![0, 0, 1, 1, 2, 2, 3, 3]);
    assert_eq!(acc.whole, 4);
    assert_eq!(acc.frac, 0);
}

#[test]
fn whole_steps_advance_linearly() {
    let step = TimeStep { whole: 3, frac: 0 };
    let steps = vec![step; 4];
    let mut acc = TimeAcc::zero();
    let mut ts = vec![0i64; 4];
    fill_block(&mut acc, &steps, &mut ts);
    assert_eq!(ts, vec![0, 3, 6, 9]);
    assert_eq!(acc.trunc(), 12);
}

#[test]
fn varying_steps_are_sample_accurate() {
    // A frequency swept per sample is drawn per sample, not per block.
    let steps = vec![
        TimeStep { whole: 1, frac: 0 },
        TimeStep { whole: 2, frac: 0 },
        TimeStep { whole: 0, frac: 0x8000_0000 },
        TimeStep { whole: 0, frac: 0x8000_0000 },
    ];
    let mut acc = TimeAcc::zero();
    let mut ts = vec![0i64; 4];
    fill_block(&mut acc, &steps, &mut ts);
    assert_eq!(ts, vec![0, 1, 3, 3]);
    assert_eq!(acc.whole, 4);
}

#[test]
fn truncation_is_toward_zero() {
    assert_eq!(TimeAcc { whole: 5, frac: 999 }.trunc(), 5);
    assert_eq!(TimeAcc { whole: 0, frac: 999 }.trunc(), 0);
    assert_eq!(TimeAcc { whole: -5, frac: 0 }.trunc(), -5);
    assert_eq!(TimeAcc { whole: -5, frac: 1 }.trunc(), -4);
    assert_eq!(TimeAcc { whole: i64::MIN, frac: 1 }.trunc(), i64::MIN + 1);
}

#[test]
fn wraparound_at_maximum_time() {
    // Driving the accumulator to the maximum representable integer time and
    // advancing once more yields the minimum representable integer time,
    // with no panic; advancement then continues upward from there.
    let mut acc = TimeAcc { whole: i64::MAX, frac: 0 };
    acc.advance(TimeStep { whole: 1, frac: 0 });
    assert_eq!(acc.whole, i64::MIN);
    assert_eq!(acc.frac, 0);
    acc.advance(TimeStep { whole: 1, frac: 0 });
    assert_eq!(acc.whole, i64::MIN + 1);
    assert_eq!(acc.frac, 0);
}

#[test]
fn fractional_carry_can_wrap_too() {
    let mut acc = TimeAcc { whole: i64::MAX, frac: 0x8000_0000 };
    acc.advance(TimeStep { whole: 0, frac: 0x8000_0000 });
    assert_eq!(acc.whole, i64::MIN);
    assert_eq!(acc.frac, 0);
}

#[test]
fn no_wrap_just_below_maximum() {
    let mut acc = TimeAcc { whole: i64::MAX - 1, frac: 0 };
    acc.advance(TimeStep { whole: 1, frac: 0 });
    assert_eq!(acc.whole, i64::MAX);
    acc.advance(TimeStep { whole: 0, frac: 1 });
    assert_eq!(acc.whole, i64::MAX);
    assert_eq!(acc.frac, 1);
}

#[test]
fn zero_step_holds_time_still() {
    let steps = vec![TimeStep { whole: 0, frac: 0 }; 3];
    let mut acc = TimeAcc { whole: 41, frac: 7 };
    let mut ts = vec![0i64; 3];
    fill_block(&mut acc, &steps, &mut ts);
    assert_eq!(ts, vec![41, 41, 41]);
    assert_eq!(acc.whole, 41);
    assert_eq!(acc.frac, 7);
}

#[test]
fn fill_block_leaves_slots_beyond_the_block() {
    let steps = vec![TimeStep { whole: 1, frac: 0 }; 2];
    let mut acc = TimeAcc::zero();
    let mut ts = vec![9i64; 4];
    fill_block(&mut acc, &steps, &mut ts);
    assert_eq!(ts, vec![0, 1, 9, 9]);
}
