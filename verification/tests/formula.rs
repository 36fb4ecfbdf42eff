//! Compilation and evaluation of formulas: grammar, precedence,
//! associativity, wrapping arithmetic, failure fallbacks, and rejection of
//! ill-formed text.

use byte_beats::expr::Expr;
use byte_beats::expr::sample_at;
use byte_beats::lex::CompileError;
use byte_beats::parse::compile;

fn eval_src(src: &str, t: i64) -> i64 {
    let e = compile(src).expect("formula should compile");
    sample_at(&e, t)
}

#[test]
fn identity_formula() {
    let e = compile("t").expect("identity compiles");
    for t in [0i64, 1, 2, 127, 128, 255, -1, i64::MAX, i64::MIN] {
        assert_eq!(sample_at(&e, t), t);
    }
}

#[test]
fn literal_formula() {
    assert_eq!(eval_src("42", 999), 42);
    assert_eq!(eval_src("0", 0), 0);
    assert_eq!(eval_src("9223372036854775807", 5), i64::MAX);
}

#[test]
fn mul_binds_tighter_than_add() {
    assert_eq!(eval_src("1+2*3", 0), 7);
    assert_eq!(eval_src("2*3+1", 0), 7);
    assert_eq!(eval_src("(1+2)*3", 0), 9);
}

#[test]
fn add_binds_tighter_than_shift() {
    // In the formula grammar (as in the source language of bytebeat
    // formulas) shifts bind looser than addition.
    assert_eq!(eval_src("1+2<<3", 0), 24);
    assert_eq!(eval_src("1<<3+1", 0), 16);
}

#[test]
fn shift_binds_tighter_than_and() {
    assert_eq!(eval_src("16>>1&3", 0), 0);
    assert_eq!(eval_src("16>>(1&3)", 0), 8);
}

#[test]
fn and_xor_or_precedence() {
    // & then ^ then |, loosest last.
    assert_eq!(eval_src("1|2^3", 0), 1 | (2 ^ 3));
    assert_eq!(eval_src("2^3&1", 0), 2 ^ (3 & 1));
    assert_eq!(eval_src("(1|2)^3", 0), (1 | 2) ^ 3);
}

#[test]
fn left_associativity() {
    assert_eq!(eval_src("10-3-2", 0), 5);
    assert_eq!(eval_src("100/5/2", 0), 10);
    assert_eq!(eval_src("7%4%3", 0), 0);
    assert_eq!(eval_src("64>>2>>1", 0), 8);
}

#[test]
fn unary_operators() {
    assert_eq!(eval_src("-t", 5), -5);
    assert_eq!(eval_src("~0", 0), -1);
    assert_eq!(eval_src("~t", 41), !41);
    assert_eq!(eval_src("--5", 0), 5);
    assert_eq!(eval_src("-~t", 7), 8);
    assert_eq!(eval_src("-8>>1", 0), -4);
}

#[test]
fn division_truncates_toward_zero() {
    assert_eq!(eval_src("7/2", 0), 3);
    assert_eq!(eval_src("-7/2", 0), -3);
    assert_eq!(eval_src("7/-2", 0), -3);
    assert_eq!(eval_src("-7%2", 0), -1);
}

#[test]
fn division_by_zero_falls_back_to_zero() {
    assert_eq!(eval_src("t/0", 77), 0);
    assert_eq!(eval_src("1%0", 0), 0);
    // The divisor vanishes only at t == 8; elsewhere the quotient is real.
    assert_eq!(eval_src("t/(t-8)", 8), 0);
    assert_eq!(eval_src("t/(t-8)", 10), 5);
    // A failed subterm poisons only the sample, which becomes zero whole.
    assert_eq!(eval_src("1+1/0", 0), 0);
}

#[test]
fn division_overflow_falls_back_to_zero() {
    assert_eq!(eval_src("(0-9223372036854775807-1)/-1", 0), 0);
    assert_eq!(eval_src("(0-9223372036854775807-1)%-1", 0), 0);
}

#[test]
fn arithmetic_wraps() {
    assert_eq!(eval_src("9223372036854775807+1", 0), i64::MIN);
    assert_eq!(eval_src("t*2", i64::MAX), -2);
    assert_eq!(eval_src("0-9223372036854775807-2", 0), i64::MAX);
}

#[test]
fn shift_amount_uses_low_six_bits() {
    assert_eq!(eval_src("1<<3", 0), 8);
    assert_eq!(eval_src("1<<64", 0), 1);
    assert_eq!(eval_src("1<<65", 0), 2);
    assert_eq!(eval_src("256>>4", 0), 16);
    assert_eq!(eval_src("1<<-1", 0), i64::MIN);
}

#[test]
fn whitespace_is_ignored() {
    assert_eq!(eval_src(" t\t+\n 1 \r", 9), 10);
}

#[test]
fn classic_bytebeat_formulas_evaluate() {
    // t*(42&t>>10) at a few points, shifts binding looser than *.
    let e = compile("t*(42&t>>10)").expect("compiles");
    for t in [0i64, 1024, 4096, 100000] {
        assert_eq!(sample_at(&e, t), t.wrapping_mul(42 & (t >> 10)));
    }
    let e2 = compile("(t*5&t>>7)|(t*3&t>>10)").expect("compiles");
    for t in [0i64, 7, 128, 99999] {
        let expect = (t.wrapping_mul(5) & (t >> 7)) | (t.wrapping_mul(3) & (t >> 10));
        assert_eq!(sample_at(&e2, t), expect);
    }
}

#[test]
fn unbalanced_parentheses_are_syntax_errors() {
    assert_eq!(compile("(t"), Err(CompileError::Syntax));
    assert_eq!(compile("t)"), Err(CompileError::Syntax));
    assert_eq!(compile("(t))"), Err(CompileError::Syntax));
    assert_eq!(compile("()"), Err(CompileError::Syntax));
}

#[test]
fn incomplete_expressions_are_syntax_errors() {
    assert_eq!(compile(""), Err(CompileError::Syntax));
    assert_eq!(compile("   "), Err(CompileError::Syntax));
    assert_eq!(compile("t+"), Err(CompileError::Syntax));
    assert_eq!(compile("*t"), Err(CompileError::Syntax));
    assert_eq!(compile("t 1"), Err(CompileError::Syntax));
    assert_eq!(compile("t t"), Err(CompileError::Syntax));
}

#[test]
fn foreign_characters_are_rejected() {
    assert_eq!(compile("t $ 2"), Err(CompileError::BadChar));
    assert_eq!(compile("x"), Err(CompileError::BadChar));
    assert_eq!(compile("café"), Err(CompileError::BadChar));
    assert_eq!(compile("t = 2"), Err(CompileError::BadChar));
    assert_eq!(compile("<"), Err(CompileError::BadChar));
    assert_eq!(compile("1 < 2"), Err(CompileError::BadChar));
    assert_eq!(compile("1 > 2"), Err(CompileError::BadChar));
}

#[test]
fn oversized_literals_are_rejected() {
    assert_eq!(compile("9223372036854775808"), Err(CompileError::NumTooLarge));
    assert_eq!(compile("t+99999999999999999999999"), Err(CompileError::NumTooLarge));
}

#[test]
fn compile_yields_the_expected_tree() {
    let e = compile("t&128").expect("compiles");
    match e {
        Expr::And(a, b) => {
            assert!(matches!(*a, Expr::Time));
            assert!(matches!(*b, Expr::Lit(128)));
        },
        _ => panic!("wrong shape"),
    }
}

#[test]
fn errors_carry_display_messages() {
    assert_eq!(CompileError::Syntax.message(), "malformed expression");
    assert_eq!(CompileError::BadChar.message(), "unexpected character in formula");
    assert_eq!(CompileError::NumTooLarge.message(), "numeric literal too large");
}
