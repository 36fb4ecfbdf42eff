//! The engine facade: initialization, rendering, normalization, time reset,
//! and formula replacement with its failure policy.

use byte_beats::engine::Engine;
use byte_beats::engine::Status;
use byte_beats::lex::CompileError;
use byte_beats::norm::SCALE;
use byte_beats::norm::norm_sample;
use byte_beats::time::TimeStep;

fn unit_step() -> TimeStep {
    TimeStep { whole: 1, frac: 0 }
}

#[test]
fn normalization_maps_the_low_byte() {
    assert_eq!(norm_sample(0), -127);
    assert_eq!(norm_sample(1), -126);
    assert_eq!(norm_sample(127), 0);
    assert_eq!(norm_sample(128), 1);
    assert_eq!(norm_sample(255), 128);
    assert_eq!(norm_sample(256), -127);
    assert_eq!(norm_sample(-1), 128);
    assert_eq!(norm_sample(i64::MIN), -127);
    assert_eq!(norm_sample(i64::MAX), 128);
}

#[test]
fn normalized_trimmed_samples_stay_in_range() {
    // Trim exactly halves the pre-trim range: every rendered value
    // `numerator / 254` lies in [-1, 1), in fact in [-0.5, 0.5039...].
    for raw in -600i64..600 {
        let n = norm_sample(raw);
        let v = n as f64 / SCALE as f64;
        assert!((-1.0..1.0).contains(&v));
        assert!((-0.5..=0.504).contains(&v));
    }
    assert_eq!(norm_sample(0) as f64 / SCALE as f64, -0.5);
}

#[test]
fn fresh_engine_renders_identity_formula() {
    let mut eng = Engine::new();
    assert!(eng.init(8));
    let steps = vec![unit_step(); 4];
    let status = eng.process(&steps);
    assert!(matches!(status, Status::Normal));
    assert_eq!(eng.times()[..4], [0, 1, 2, 3]);
    let expect: Vec<i16> = vec![-127, -126, -125, -124];
    assert_eq!(eng.output()[..4], expect[..]);
    assert_eq!(eng.t(), 4);
}

#[test]
fn sixth_step_block_renders_documented_values() {
    // sampleRate 48000, frequency 8000: the per-sample step is one sixth of
    // a time index, so the integer time crosses from 0 to 1 at the seventh
    // sample of the block; with the identity formula the raw values 0 and 1
    // normalize to -1 and about -0.9921, and trim halves them to -0.5 and
    // about -0.4961.
    let step = TimeStep { whole: 0, frac: 715827883 };
    let mut eng = Engine::new();
    assert!(eng.init(16));
    let steps = vec![step; 7];
    eng.process(&steps);
    assert_eq!(eng.times()[..7], [0, 0, 0, 0, 0, 0, 1]);
    assert_eq!(eng.output()[..7], [-127, -127, -127, -127, -127, -127, -126]);
    let first = eng.output()[0] as f64 / SCALE as f64;
    let last = eng.output()[6] as f64 / SCALE as f64;
    assert_eq!(first, -0.5);
    assert!((last - -0.4961).abs() < 0.0001);
}

#[test]
fn and_128_formula_renders_two_plateaus() {
    // The formula "t & 128" over t in 0..=255 is 0 up to 127 and 128 from
    // 128 on: two normalized plateau levels after trim.
    let mut eng = Engine::new();
    assert!(eng.init(256));
    assert_eq!(eng.set_func("t & 128"), Ok(()));
    let steps = vec![unit_step(); 256];
    eng.process(&steps);
    for t in 0..256 {
        let raw_expect: i64 = if t < 128 {
            0
        } else {
            128
        };
        assert_eq!(eng.times()[t], t as i64);
        assert_eq!(eng.output()[t], norm_sample(raw_expect));
    }
    assert_eq!(eng.output()[0], -127);
    assert_eq!(eng.output()[255], 1);
}

#[test]
fn reset_starts_the_next_block_at_zero() {
    let mut eng = Engine::new();
    assert!(eng.init(8));
    let steps = vec![unit_step(); 8];
    eng.process(&steps);
    assert_eq!(eng.t(), 8);
    eng.reset_t();
    assert_eq!(eng.t(), 0);
    eng.process(&steps);
    assert_eq!(eng.times()[0], 0);
    assert_eq!(eng.output()[0], -127);
}

#[test]
fn failed_compilation_keeps_the_previous_generator() {
    let mut eng = Engine::new();
    assert!(eng.init(8));
    assert_eq!(eng.set_func("t*3"), Ok(()));
    let steps = vec![unit_step(); 8];
    eng.reset_t();
    eng.process(&steps);
    let before: Vec<i16> = eng.output().clone();

    // An invalid expression is reported and changes nothing.
    assert_eq!(eng.set_func("(t*4"), Err(CompileError::Syntax));
    eng.reset_t();
    eng.process(&steps);
    assert_eq!(eng.output(), &before);

    // A valid one replaces the generator.
    assert_eq!(eng.set_func("t*4"), Ok(()));
    eng.reset_t();
    eng.process(&steps);
    assert_ne!(eng.output(), &before);
}

#[test]
fn set_func_reports_each_error_kind() {
    let mut eng = Engine::new();
    assert_eq!(eng.set_func("t +"), Err(CompileError::Syntax));
    assert_eq!(eng.set_func("t ? 1"), Err(CompileError::BadChar));
    assert_eq!(eng.set_func("18446744073709551616"), Err(CompileError::NumTooLarge));
    assert_eq!(eng.set_func("t|1"), Ok(()));
}

#[test]
fn set_func_before_init_is_retained() {
    let mut eng = Engine::new();
    assert_eq!(eng.set_func("t+1"), Ok(()));
    eng.reset_t();
    assert!(eng.init(4));
    let steps = vec![unit_step(); 4];
    eng.process(&steps);
    assert_eq!(eng.output()[..4], [-126, -125, -124, -123]);
}

#[test]
fn init_again_reallocates_and_keeps_time() {
    let mut eng = Engine::new();
    assert!(eng.init(4));
    let steps = vec![unit_step(); 4];
    eng.process(&steps);
    assert_eq!(eng.t(), 4);
    assert!(eng.init(8));
    assert_eq!(eng.t(), 4);
    assert_eq!(eng.output().len(), 8);
    let steps2 = vec![unit_step(); 8];
    eng.process(&steps2);
    assert_eq!(eng.times()[0], 4);
}

#[test]
fn short_blocks_leave_the_buffer_tail() {
    let mut eng = Engine::new();
    assert!(eng.init(6));
    let six = vec![unit_step(); 6];
    eng.process(&six);
    let tail = eng.output()[5];
    let two = vec![unit_step(); 2];
    eng.process(&two);
    assert_eq!(eng.output()[5], tail);
    assert_eq!(eng.times()[0], 6);
}

#[test]
fn division_by_zero_renders_the_fallback_sample() {
    let mut eng = Engine::new();
    assert!(eng.init(4));
    assert_eq!(eng.set_func("128/(t-1)"), Ok(()));
    let steps = vec![unit_step(); 4];
    eng.process(&steps);
    // t == 1 divides by zero: that sample falls back to raw 0.
    assert_eq!(eng.output()[..4], [
        norm_sample(-128),
        norm_sample(0),
        norm_sample(128),
        norm_sample(64),
    ]);
}
