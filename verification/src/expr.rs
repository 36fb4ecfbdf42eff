//! The compiled form of a formula: an abstract syntax tree over one free time
//! variable, with a total evaluation semantics on `i64`.
//!
//! Arithmetic wraps around on overflow; division and remainder are checked,
//! and a failure there (division by zero, or an overflowing quotient) makes
//! the whole sample evaluation fail, which callers replace by the fallback
//! raw sample `0`. Shift amounts are taken modulo 64 so that every shift is
//! defined.

use vstd::prelude::*;
use vstd::wrapping::i64_specs;

verus! {

/// A compiled generator: a pure expression over the integer time variable.
#[derive(Debug, PartialEq, Eq)]
pub enum Expr {
    /// The free time variable.
    Time,
    /// A numeric literal.
    Lit(i64),
    /// Arithmetic negation (wrapping).
    Neg(Box<Expr>),
    /// Bitwise complement.
    Not(Box<Expr>),
    /// Wrapping addition.
    Add(Box<Expr>, Box<Expr>),
    /// Wrapping subtraction.
    Sub(Box<Expr>, Box<Expr>),
    /// Wrapping multiplication.
    Mul(Box<Expr>, Box<Expr>),
    /// Truncated division; fails on a zero divisor or an overflowing quotient.
    Div(Box<Expr>, Box<Expr>),
    /// Truncated remainder; fails on a zero divisor or an overflowing quotient.
    Rem(Box<Expr>, Box<Expr>),
    /// Bitwise and.
    And(Box<Expr>, Box<Expr>),
    /// Bitwise or.
    Or(Box<Expr>, Box<Expr>),
    /// Bitwise xor.
    Xor(Box<Expr>, Box<Expr>),
    /// Left shift by the low six bits of the right operand.
    Shl(Box<Expr>, Box<Expr>),
    /// Arithmetic right shift by the low six bits of the right operand.
    Shr(Box<Expr>, Box<Expr>),
}

/// The value of an expression at time `t`, or `None` when a division or
/// remainder in it fails.
pub open spec fn spec_eval(e: Expr, t: i64) -> Option<i64>
    decreases e,
{
    match e {
        Expr::Time => Some(t),
        Expr::Lit(n) => Some(n),
        Expr::Neg(a) => match spec_eval(*a, t) {
            Some(v) => Some(i64_specs::wrapping_sub(0, v)),
            None => None,
        },
        Expr::Not(a) => match spec_eval(*a, t) {
            Some(v) => Some(!v),
            None => None,
        },
        Expr::Add(a, b) => match (spec_eval(*a, t), spec_eval(*b, t)) {
            (Some(x), Some(y)) => Some(i64_specs::wrapping_add(x, y)),
            _ => None,
        },
        Expr::Sub(a, b) => match (spec_eval(*a, t), spec_eval(*b, t)) {
            (Some(x), Some(y)) => Some(i64_specs::wrapping_sub(x, y)),
            _ => None,
        },
        Expr::Mul(a, b) => match (spec_eval(*a, t), spec_eval(*b, t)) {
            (Some(x), Some(y)) => Some(i64_specs::wrapping_mul(x, y)),
            _ => None,
        },
        Expr::Div(a, b) => match (spec_eval(*a, t), spec_eval(*b, t)) {
            (Some(x), Some(y)) => x.checked_div(y),
            _ => None,
        },
        Expr::Rem(a, b) => match (spec_eval(*a, t), spec_eval(*b, t)) {
            (Some(x), Some(y)) => x.checked_rem(y),
            _ => None,
        },
        Expr::And(a, b) => match (spec_eval(*a, t), spec_eval(*b, t)) {
            (Some(x), Some(y)) => Some(x & y),
            _ => None,
        },
        Expr::Or(a, b) => match (spec_eval(*a, t), spec_eval(*b, t)) {
            (Some(x), Some(y)) => Some(x | y),
            _ => None,
        },
        Expr::Xor(a, b) => match (spec_eval(*a, t), spec_eval(*b, t)) {
            (Some(x), Some(y)) => Some(x ^ y),
            _ => None,
        },
        Expr::Shl(a, b) => match (spec_eval(*a, t), spec_eval(*b, t)) {
            (Some(x), Some(y)) => Some(i64_specs::wrapping_shl(x, (y & 63) as u32)),
            _ => None,
        },
        Expr::Shr(a, b) => match (spec_eval(*a, t), spec_eval(*b, t)) {
            (Some(x), Some(y)) => Some(i64_specs::wrapping_shr(x, (y & 63) as u32)),
            _ => None,
        },
    }
}

/// The raw sample an expression produces at time `t`: its value, with the
/// fallback `0` substituted when evaluation fails.
pub open spec fn spec_sample(e: Expr, t: i64) -> i64 {
    match spec_eval(e, t) {
        Some(v) => v,
        None => 0,
    }
}

/// Evaluates the expression at time `t`; `None` reports a failed division or
/// remainder somewhere in the expression.
pub fn eval(e: &Expr, t: i64) -> (r: Option<i64>)
    ensures
        r == spec_eval(*e, t),
    decreases *e,
{
    match e {
        Expr::Time => Some(t),
        Expr::Lit(n) => Some(*n),
        Expr::Neg(a) => match eval(a, t) {
            Some(v) => Some(0i64.wrapping_sub(v)),
            None => None,
        },
        Expr::Not(a) => match eval(a, t) {
            Some(v) => Some(!v),
            None => None,
        },
        Expr::Add(a, b) => match (eval(a, t), eval(b, t)) {
            (Some(x), Some(y)) => Some(x.wrapping_add(y)),
            _ => None,
        },
        Expr::Sub(a, b) => match (eval(a, t), eval(b, t)) {
            (Some(x), Some(y)) => Some(x.wrapping_sub(y)),
            _ => None,
        },
        Expr::Mul(a, b) => match (eval(a, t), eval(b, t)) {
            (Some(x), Some(y)) => Some(x.wrapping_mul(y)),
            _ => None,
        },
        Expr::Div(a, b) => match (eval(a, t), eval(b, t)) {
            (Some(x), Some(y)) => x.checked_div(y),
            _ => None,
        },
        Expr::Rem(a, b) => match (eval(a, t), eval(b, t)) {
            (Some(x), Some(y)) => x.checked_rem(y),
            _ => None,
        },
        Expr::And(a, b) => match (eval(a, t), eval(b, t)) {
            (Some(x), Some(y)) => Some(x & y),
            _ => None,
        },
        Expr::Or(a, b) => match (eval(a, t), eval(b, t)) {
            (Some(x), Some(y)) => Some(x | y),
            _ => None,
        },
        Expr::Xor(a, b) => match (eval(a, t), eval(b, t)) {
            (Some(x), Some(y)) => Some(x ^ y),
            _ => None,
        },
        Expr::Shl(a, b) => match (eval(a, t), eval(b, t)) {
            (Some(x), Some(y)) => Some(x.wrapping_shl((y & 63) as u32)),
            _ => None,
        },
        Expr::Shr(a, b) => match (eval(a, t), eval(b, t)) {
            (Some(x), Some(y)) => Some(x.wrapping_shr((y & 63) as u32)),
            _ => None,
        },
    }
}

/// Evaluates the expression at time `t` into a raw sample, substituting the
/// fallback `0` when evaluation fails, so that one bad sample never aborts a
/// block.
pub fn sample_at(e: &Expr, t: i64) -> (r: i64)
    ensures
        r == spec_sample(*e, t),
{
    match eval(e, t) {
        Some(v) => v,
        None => 0,
    }
}

} // verus!
