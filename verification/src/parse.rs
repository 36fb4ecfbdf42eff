//! The formula parser.
//!
//! The grammar is integer/bitwise arithmetic over the one time variable,
//! with the precedence of the source language the formulas come from,
//! loosest first: `|`, `^`, `&`, `<< >>`, `+ -`, `* / %`, then the unary
//! `- ~`, then literals, `t` and parenthesized expressions. All binary
//! operators associate to the left.
//!
//! Each executable parsing function is proved to return exactly what its
//! specification-level mirror denotes, so [`compile`] is pinned down to
//! [`spec_compile`] on the formula's bytes.

use vstd::prelude::*;
use vstd::string::StringSliceAdditionalSpecFns;

use crate::expr::Expr;
use crate::lex::CompileError;
use crate::lex::Token;
use crate::lex::spec_tokenize;
use crate::lex::tokenize;

verus! {

/// The expression node a binary operator token builds.
pub open spec fn bin_node(op: Token, a: Expr, b: Expr) -> Expr {
    if op == Token::Star {
        Expr::Mul(Box::new(a), Box::new(b))
    } else if op == Token::Slash {
        Expr::Div(Box::new(a), Box::new(b))
    } else if op == Token::Percent {
        Expr::Rem(Box::new(a), Box::new(b))
    } else if op == Token::Plus {
        Expr::Add(Box::new(a), Box::new(b))
    } else if op == Token::Minus {
        Expr::Sub(Box::new(a), Box::new(b))
    } else if op == Token::Shl {
        Expr::Shl(Box::new(a), Box::new(b))
    } else if op == Token::Shr {
        Expr::Shr(Box::new(a), Box::new(b))
    } else if op == Token::Amp {
        Expr::And(Box::new(a), Box::new(b))
    } else if op == Token::Caret {
        Expr::Xor(Box::new(a), Box::new(b))
    } else {
        Expr::Or(Box::new(a), Box::new(b))
    }
}

/// A primary expression: a literal, the time variable, or a parenthesized
/// expression. A parse at position `i` yields the expression and the
/// position just past it.
pub open spec fn spec_primary(ts: Seq<Token>, i: int) -> Option<(Expr, int)>
    decreases ts.len() - i, 0int,
{
    if i < 0 || i >= ts.len() {
        None
    } else {
        match ts[i] {
            Token::Num(v) => Some((Expr::Lit(v), i + 1)),
            Token::TVar => Some((Expr::Time, i + 1)),
            Token::LParen => match spec_bor(ts, i + 1) {
                Some((e, j)) => if 0 <= j < ts.len() && ts[j] == Token::RParen {
                    Some((e, j + 1))
                } else {
                    None
                },
                None => None,
            },
            _ => None,
        }
    }
}

/// A unary expression: any run of `-` and `~` before a primary expression.
pub open spec fn spec_unary(ts: Seq<Token>, i: int) -> Option<(Expr, int)>
    decreases ts.len() - i, 1int,
{
    if i < 0 || i >= ts.len() {
        None
    } else if ts[i] == Token::Minus || ts[i] == Token::Tilde {
        match spec_unary(ts, i + 1) {
            Some((e, j)) => if ts[i] == Token::Minus {
                Some((Expr::Neg(Box::new(e)), j))
            } else {
                Some((Expr::Not(Box::new(e)), j))
            },
            None => None,
        }
    } else {
        spec_primary(ts, i)
    }
}

/// A multiplicative expression: unary expressions joined by `*`, `/`, `%`.
pub open spec fn spec_mul(ts: Seq<Token>, i: int) -> Option<(Expr, int)>
    decreases ts.len() - i, 3int,
{
    if i < 0 || i >= ts.len() {
        None
    } else {
        match spec_unary(ts, i) {
            Some((e, j)) => if i < j <= ts.len() {
                spec_mul_rest(ts, j, e)
            } else {
                None
            },
            None => None,
        }
    }
}

/// The left-associative continuation of a multiplicative expression.
pub open spec fn spec_mul_rest(ts: Seq<Token>, i: int, acc: Expr) -> Option<(Expr, int)>
    decreases ts.len() - i, 2int,
{
    if 0 <= i < ts.len() && (ts[i] == Token::Star || ts[i] == Token::Slash || ts[i]
        == Token::Percent) {
        match spec_unary(ts, i + 1) {
            Some((rhs, j)) => if i < j <= ts.len() {
                spec_mul_rest(ts, j, bin_node(ts[i], acc, rhs))
            } else {
                None
            },
            None => None,
        }
    } else {
        Some((acc, i))
    }
}

/// An additive expression: multiplicative expressions joined by `+`, `-`.
pub open spec fn spec_add(ts: Seq<Token>, i: int) -> Option<(Expr, int)>
    decreases ts.len() - i, 5int,
{
    if i < 0 || i >= ts.len() {
        None
    } else {
        match spec_mul(ts, i) {
            Some((e, j)) => if i < j <= ts.len() {
                spec_add_rest(ts, j, e)
            } else {
                None
            },
            None => None,
        }
    }
}

/// The left-associative continuation of an additive expression.
pub open spec fn spec_add_rest(ts: Seq<Token>, i: int, acc: Expr) -> Option<(Expr, int)>
    decreases ts.len() - i, 4int,
{
    if 0 <= i < ts.len() && (ts[i] == Token::Plus || ts[i] == Token::Minus) {
        match spec_mul(ts, i + 1) {
            Some((rhs, j)) => if i < j <= ts.len() {
                spec_add_rest(ts, j, bin_node(ts[i], acc, rhs))
            } else {
                None
            },
            None => None,
        }
    } else {
        Some((acc, i))
    }
}

/// A shift expression: additive expressions joined by `<<`, `>>`.
pub open spec fn spec_shift(ts: Seq<Token>, i: int) -> Option<(Expr, int)>
    decreases ts.len() - i, 7int,
{
    if i < 0 || i >= ts.len() {
        None
    } else {
        match spec_add(ts, i) {
            Some((e, j)) => if i < j <= ts.len() {
                spec_shift_rest(ts, j, e)
            } else {
                None
            },
            None => None,
        }
    }
}

/// The left-associative continuation of a shift expression.
pub open spec fn spec_shift_rest(ts: Seq<Token>, i: int, acc: Expr) -> Option<(Expr, int)>
    decreases ts.len() - i, 6int,
{
    if 0 <= i < ts.len() && (ts[i] == Token::Shl || ts[i] == Token::Shr) {
        match spec_add(ts, i + 1) {
            Some((rhs, j)) => if i < j <= ts.len() {
                spec_shift_rest(ts, j, bin_node(ts[i], acc, rhs))
            } else {
                None
            },
            None => None,
        }
    } else {
        Some((acc, i))
    }
}

/// A bitwise-and expression: shift expressions joined by `&`.
pub open spec fn spec_band(ts: Seq<Token>, i: int) -> Option<(Expr, int)>
    decreases ts.len() - i, 9int,
{
    if i < 0 || i >= ts.len() {
        None
    } else {
        match spec_shift(ts, i) {
            Some((e, j)) => if i < j <= ts.len() {
                spec_band_rest(ts, j, e)
            } else {
                None
            },
            None => None,
        }
    }
}

/// The left-associative continuation of a bitwise-and expression.
pub open spec fn spec_band_rest(ts: Seq<Token>, i: int, acc: Expr) -> Option<(Expr, int)>
    decreases ts.len() - i, 8int,
{
    if 0 <= i < ts.len() && ts[i] == Token::Amp {
        match spec_shift(ts, i + 1) {
            Some((rhs, j)) => if i < j <= ts.len() {
                spec_band_rest(ts, j, bin_node(ts[i], acc, rhs))
            } else {
                None
            },
            None => None,
        }
    } else {
        Some((acc, i))
    }
}

/// A bitwise-xor expression: bitwise-and expressions joined by `^`.
pub open spec fn spec_bxor(ts: Seq<Token>, i: int) -> Option<(Expr, int)>
    decreases ts.len() - i, 11int,
{
    if i < 0 || i >= ts.len() {
        None
    } else {
        match spec_band(ts, i) {
            Some((e, j)) => if i < j <= ts.len() {
                spec_bxor_rest(ts, j, e)
            } else {
                None
            },
            None => None,
        }
    }
}

/// The left-associative continuation of a bitwise-xor expression.
pub open spec fn spec_bxor_rest(ts: Seq<Token>, i: int, acc: Expr) -> Option<(Expr, int)>
    decreases ts.len() - i, 10int,
{
    if 0 <= i < ts.len() && ts[i] == Token::Caret {
        match spec_band(ts, i + 1) {
            Some((rhs, j)) => if i < j <= ts.len() {
                spec_bxor_rest(ts, j, bin_node(ts[i], acc, rhs))
            } else {
                None
            },
            None => None,
        }
    } else {
        Some((acc, i))
    }
}

/// A whole expression: bitwise-xor expressions joined by `|`, the loosest
/// level of the grammar.
pub open spec fn spec_bor(ts: Seq<Token>, i: int) -> Option<(Expr, int)>
    decreases ts.len() - i, 13int,
{
    if i < 0 || i >= ts.len() {
        None
    } else {
        match spec_bxor(ts, i) {
            Some((e, j)) => if i < j <= ts.len() {
                spec_bor_rest(ts, j, e)
            } else {
                None
            },
            None => None,
        }
    }
}

/// The left-associative continuation of a whole expression.
pub open spec fn spec_bor_rest(ts: Seq<Token>, i: int, acc: Expr) -> Option<(Expr, int)>
    decreases ts.len() - i, 12int,
{
    if 0 <= i < ts.len() && ts[i] == Token::Pipe {
        match spec_bxor(ts, i + 1) {
            Some((rhs, j)) => if i < j <= ts.len() {
                spec_bor_rest(ts, j, bin_node(ts[i], acc, rhs))
            } else {
                None
            },
            None => None,
        }
    } else {
        Some((acc, i))
    }
}

proof fn lemma_primary_bounds(ts: Seq<Token>, i: int)
    ensures
        spec_primary(ts, i) matches Some((e, j)) ==> i < j <= ts.len(),
    decreases ts.len() - i, 0int,
{
    if 0 <= i < ts.len() && ts[i] == Token::LParen {
        lemma_bor_bounds(ts, i + 1);
    }
}

proof fn lemma_unary_bounds(ts: Seq<Token>, i: int)
    ensures
        spec_unary(ts, i) matches Some((e, j)) ==> i < j <= ts.len(),
    decreases ts.len() - i, 1int,
{
    if 0 <= i < ts.len() && (ts[i] == Token::Minus || ts[i] == Token::Tilde) {
        lemma_unary_bounds(ts, i + 1);
    } else {
        lemma_primary_bounds(ts, i);
    }
}

proof fn lemma_mul_rest_bounds(ts: Seq<Token>, i: int, acc: Expr)
    requires
        0 <= i <= ts.len(),
    ensures
        spec_mul_rest(ts, i, acc) matches Some((e, j)) ==> i <= j <= ts.len(),
    decreases ts.len() - i, 2int,
{
    if i < ts.len() && (ts[i] == Token::Star || ts[i] == Token::Slash || ts[i]
        == Token::Percent) {
        lemma_unary_bounds(ts, i + 1);
        if let Some((rhs, j)) = spec_unary(ts, i + 1) {
            lemma_mul_rest_bounds(ts, j, bin_node(ts[i], acc, rhs));
        }
    }
}

proof fn lemma_mul_bounds(ts: Seq<Token>, i: int)
    ensures
        spec_mul(ts, i) matches Some((e, j)) ==> i < j <= ts.len(),
    decreases ts.len() - i, 3int,
{
    if 0 <= i < ts.len() {
        lemma_unary_bounds(ts, i);
        if let Some((e, j)) = spec_unary(ts, i) {
            lemma_mul_rest_bounds(ts, j, e);
        }
    }
}

proof fn lemma_add_rest_bounds(ts: Seq<Token>, i: int, acc: Expr)
    requires
        0 <= i <= ts.len(),
    ensures
        spec_add_rest(ts, i, acc) matches Some((e, j)) ==> i <= j <= ts.len(),
    decreases ts.len() - i, 4int,
{
    if i < ts.len() && (ts[i] == Token::Plus || ts[i] == Token::Minus) {
        lemma_mul_bounds(ts, i + 1);
        if let Some((rhs, j)) = spec_mul(ts, i + 1) {
            lemma_add_rest_bounds(ts, j, bin_node(ts[i], acc, rhs));
        }
    }
}

proof fn lemma_add_bounds(ts: Seq<Token>, i: int)
    ensures
        spec_add(ts, i) matches Some((e, j)) ==> i < j <= ts.len(),
    decreases ts.len() - i, 5int,
{
    if 0 <= i < ts.len() {
        lemma_mul_bounds(ts, i);
        if let Some((e, j)) = spec_mul(ts, i) {
            lemma_add_rest_bounds(ts, j, e);
        }
    }
}

proof fn lemma_shift_rest_bounds(ts: Seq<Token>, i: int, acc: Expr)
    requires
        0 <= i <= ts.len(),
    ensures
        spec_shift_rest(ts, i, acc) matches Some((e, j)) ==> i <= j <= ts.len(),
    decreases ts.len() - i, 6int,
{
    if i < ts.len() && (ts[i] == Token::Shl || ts[i] == Token::Shr) {
        lemma_add_bounds(ts, i + 1);
        if let Some((rhs, j)) = spec_add(ts, i + 1) {
            lemma_shift_rest_bounds(ts, j, bin_node(ts[i], acc, rhs));
        }
    }
}

proof fn lemma_shift_bounds(ts: Seq<Token>, i: int)
    ensures
        spec_shift(ts, i) matches Some((e, j)) ==> i < j <= ts.len(),
    decreases ts.len() - i, 7int,
{
    if 0 <= i < ts.len() {
        lemma_add_bounds(ts, i);
        if let Some((e, j)) = spec_add(ts, i) {
            lemma_shift_rest_bounds(ts, j, e);
        }
    }
}

proof fn lemma_band_rest_bounds(ts: Seq<Token>, i: int, acc: Expr)
    requires
        0 <= i <= ts.len(),
    ensures
        spec_band_rest(ts, i, acc) matches Some((e, j)) ==> i <= j <= ts.len(),
    decreases ts.len() - i, 8int,
{
    if i < ts.len() && ts[i] == Token::Amp {
        lemma_shift_bounds(ts, i + 1);
        if let Some((rhs, j)) = spec_shift(ts, i + 1) {
            lemma_band_rest_bounds(ts, j, bin_node(ts[i], acc, rhs));
        }
    }
}

proof fn lemma_band_bounds(ts: Seq<Token>, i: int)
    ensures
        spec_band(ts, i) matches Some((e, j)) ==> i < j <= ts.len(),
    decreases ts.len() - i, 9int,
{
    if 0 <= i < ts.len() {
        lemma_shift_bounds(ts, i);
        if let Some((e, j)) = spec_shift(ts, i) {
            lemma_band_rest_bounds(ts, j, e);
        }
    }
}

proof fn lemma_bxor_rest_bounds(ts: Seq<Token>, i: int, acc: Expr)
    requires
        0 <= i <= ts.len(),
    ensures
        spec_bxor_rest(ts, i, acc) matches Some((e, j)) ==> i <= j <= ts.len(),
    decreases ts.len() - i, 10int,
{
    if i < ts.len() && ts[i] == Token::Caret {
        lemma_band_bounds(ts, i + 1);
        if let Some((rhs, j)) = spec_band(ts, i + 1) {
            lemma_bxor_rest_bounds(ts, j, bin_node(ts[i], acc, rhs));
        }
    }
}

proof fn lemma_bxor_bounds(ts: Seq<Token>, i: int)
    ensures
        spec_bxor(ts, i) matches Some((e, j)) ==> i < j <= ts.len(),
    decreases ts.len() - i, 11int,
{
    if 0 <= i < ts.len() {
        lemma_band_bounds(ts, i);
        if let Some((e, j)) = spec_band(ts, i) {
            lemma_bxor_rest_bounds(ts, j, e);
        }
    }
}

proof fn lemma_bor_rest_bounds(ts: Seq<Token>, i: int, acc: Expr)
    requires
        0 <= i <= ts.len(),
    ensures
        spec_bor_rest(ts, i, acc) matches Some((e, j)) ==> i <= j <= ts.len(),
    decreases ts.len() - i, 12int,
{
    if i < ts.len() && ts[i] == Token::Pipe {
        lemma_bxor_bounds(ts, i + 1);
        if let Some((rhs, j)) = spec_bxor(ts, i + 1) {
            lemma_bor_rest_bounds(ts, j, bin_node(ts[i], acc, rhs));
        }
    }
}

/// A successful parse starting at `i` consumes at least one token and ends
/// within the sequence: the position bounds each grammar level checks
/// before continuing always hold of what the level below returned, so those
/// checks reject nothing.
pub proof fn lemma_bor_bounds(ts: Seq<Token>, i: int)
    ensures
        spec_bor(ts, i) matches Some((e, j)) ==> i < j <= ts.len(),
    decreases ts.len() - i, 13int,
{
    if 0 <= i < ts.len() {
        lemma_bxor_bounds(ts, i);
        if let Some((e, j)) = spec_bxor(ts, i) {
            lemma_bor_rest_bounds(ts, j, e);
        }
    }
}

/// What a token sequence parses to: the expression of the whole sequence,
/// or a syntax error when no expression spans exactly all of it.
pub open spec fn spec_parse_tokens(ts: Seq<Token>) -> Result<Expr, CompileError> {
    match spec_bor(ts, 0) {
        Some((e, j)) => if j == ts.len() {
            Ok(e)
        } else {
            Err(CompileError::Syntax)
        },
        None => Err(CompileError::Syntax),
    }
}

/// What a formula text compiles to: its tokens parsed as one expression, or
/// the first error of tokenization or parsing.
pub open spec fn spec_compile(s: Seq<u8>) -> Result<Expr, CompileError> {
    match spec_tokenize(s) {
        Ok(ts) => spec_parse_tokens(ts),
        Err(e) => Err(e),
    }
}

/// A parse outcome, seen abstractly.
pub open spec fn parse_view(r: Option<(Expr, usize)>) -> Option<(Expr, int)> {
    match r {
        Some((e, j)) => Some((e, j as int)),
        None => None,
    }
}

/// Builds the expression node of a binary operator token.
fn make_bin(op: Token, a: Expr, b: Expr) -> (r: Expr)
    ensures
        r == bin_node(op, a, b),
{
    if op == Token::Star {
        Expr::Mul(Box::new(a), Box::new(b))
    } else if op == Token::Slash {
        Expr::Div(Box::new(a), Box::new(b))
    } else if op == Token::Percent {
        Expr::Rem(Box::new(a), Box::new(b))
    } else if op == Token::Plus {
        Expr::Add(Box::new(a), Box::new(b))
    } else if op == Token::Minus {
        Expr::Sub(Box::new(a), Box::new(b))
    } else if op == Token::Shl {
        Expr::Shl(Box::new(a), Box::new(b))
    } else if op == Token::Shr {
        Expr::Shr(Box::new(a), Box::new(b))
    } else if op == Token::Amp {
        Expr::And(Box::new(a), Box::new(b))
    } else if op == Token::Caret {
        Expr::Xor(Box::new(a), Box::new(b))
    } else {
        Expr::Or(Box::new(a), Box::new(b))
    }
}

fn parse_primary(ts: &Vec<Token>, i: usize) -> (r: Option<(Expr, usize)>)
    ensures
        parse_view(r) == spec_primary(ts@, i as int),
    decreases ts.len() - i, 0int,
{
    if i >= ts.len() {
        None
    } else {
        match ts[i] {
            Token::Num(v) => Some((Expr::Lit(v), i + 1)),
            Token::TVar => Some((Expr::Time, i + 1)),
            Token::LParen => match parse_bor(ts, i + 1) {
                Some((e, j)) => if j < ts.len() && ts[j] == Token::RParen {
                    Some((e, j + 1))
                } else {
                    None
                },
                None => None,
            },
            _ => None,
        }
    }
}

fn parse_unary(ts: &Vec<Token>, i: usize) -> (r: Option<(Expr, usize)>)
    ensures
        parse_view(r) == spec_unary(ts@, i as int),
    decreases ts.len() - i, 1int,
{
    if i >= ts.len() {
        None
    } else if ts[i] == Token::Minus || ts[i] == Token::Tilde {
        let minus = ts[i] == Token::Minus;
        match parse_unary(ts, i + 1) {
            Some((e, j)) => if minus {
                Some((Expr::Neg(Box::new(e)), j))
            } else {
                Some((Expr::Not(Box::new(e)), j))
            },
            None => None,
        }
    } else {
        parse_primary(ts, i)
    }
}

fn parse_mul(ts: &Vec<Token>, i: usize) -> (r: Option<(Expr, usize)>)
    ensures
        parse_view(r) == spec_mul(ts@, i as int),
    decreases ts.len() - i, 3int,
{
    if i >= ts.len() {
        None
    } else {
        match parse_unary(ts, i) {
            Some((e, j)) => if i < j && j <= ts.len() {
                parse_mul_rest(ts, j, e)
            } else {
                None
            },
            None => None,
        }
    }
}

fn parse_mul_rest(ts: &Vec<Token>, i: usize, acc: Expr) -> (r: Option<(Expr, usize)>)
    ensures
        parse_view(r) == spec_mul_rest(ts@, i as int, acc),
    decreases ts.len() - i, 2int,
{
    if i < ts.len() && (ts[i] == Token::Star || ts[i] == Token::Slash || ts[i]
        == Token::Percent) {
        let op = ts[i];
        match parse_unary(ts, i + 1) {
            Some((rhs, j)) => if i < j && j <= ts.len() {
                parse_mul_rest(ts, j, make_bin(op, acc, rhs))
            } else {
                None
            },
            None => None,
        }
    } else {
        Some((acc, i))
    }
}

fn parse_add(ts: &Vec<Token>, i: usize) -> (r: Option<(Expr, usize)>)
    ensures
        parse_view(r) == spec_add(ts@, i as int),
    decreases ts.len() - i, 5int,
{
    if i >= ts.len() {
        None
    } else {
        match parse_mul(ts, i) {
            Some((e, j)) => if i < j && j <= ts.len() {
                parse_add_rest(ts, j, e)
            } else {
                None
            },
            None => None,
        }
    }
}

fn parse_add_rest(ts: &Vec<Token>, i: usize, acc: Expr) -> (r: Option<(Expr, usize)>)
    ensures
        parse_view(r) == spec_add_rest(ts@, i as int, acc),
    decreases ts.len() - i, 4int,
{
    if i < ts.len() && (ts[i] == Token::Plus || ts[i] == Token::Minus) {
        let op = ts[i];
        match parse_mul(ts, i + 1) {
            Some((rhs, j)) => if i < j && j <= ts.len() {
                parse_add_rest(ts, j, make_bin(op, acc, rhs))
            } else {
                None
            },
            None => None,
        }
    } else {
        Some((acc, i))
    }
}

fn parse_shift(ts: &Vec<Token>, i: usize) -> (r: Option<(Expr, usize)>)
    ensures
        parse_view(r) == spec_shift(ts@, i as int),
    decreases ts.len() - i, 7int,
{
    if i >= ts.len() {
        None
    } else {
        match parse_add(ts, i) {
            Some((e, j)) => if i < j && j <= ts.len() {
                parse_shift_rest(ts, j, e)
            } else {
                None
            },
            None => None,
        }
    }
}

fn parse_shift_rest(ts: &Vec<Token>, i: usize, acc: Expr) -> (r: Option<(Expr, usize)>)
    ensures
        parse_view(r) == spec_shift_rest(ts@, i as int, acc),
    decreases ts.len() - i, 6int,
{
    if i < ts.len() && (ts[i] == Token::Shl || ts[i] == Token::Shr) {
        let op = ts[i];
        match parse_add(ts, i + 1) {
            Some((rhs, j)) => if i < j && j <= ts.len() {
                parse_shift_rest(ts, j, make_bin(op, acc, rhs))
            } else {
                None
            },
            None => None,
        }
    } else {
        Some((acc, i))
    }
}

fn parse_band(ts: &Vec<Token>, i: usize) -> (r: Option<(Expr, usize)>)
    ensures
        parse_view(r) == spec_band(ts@, i as int),
    decreases ts.len() - i, 9int,
{
    if i >= ts.len() {
        None
    } else {
        match parse_shift(ts, i) {
            Some((e, j)) => if i < j && j <= ts.len() {
                parse_band_rest(ts, j, e)
            } else {
                None
            },
            None => None,
        }
    }
}

fn parse_band_rest(ts: &Vec<Token>, i: usize, acc: Expr) -> (r: Option<(Expr, usize)>)
    ensures
        parse_view(r) == spec_band_rest(ts@, i as int, acc),
    decreases ts.len() - i, 8int,
{
    if i < ts.len() && ts[i] == Token::Amp {
        let op = ts[i];
        match parse_shift(ts, i + 1) {
            Some((rhs, j)) => if i < j && j <= ts.len() {
                parse_band_rest(ts, j, make_bin(op, acc, rhs))
            } else {
                None
            },
            None => None,
        }
    } else {
        Some((acc, i))
    }
}

fn parse_bxor(ts: &Vec<Token>, i: usize) -> (r: Option<(Expr, usize)>)
    ensures
        parse_view(r) == spec_bxor(ts@, i as int),
    decreases ts.len() - i, 11int,
{
    if i >= ts.len() {
        None
    } else {
        match parse_band(ts, i) {
            Some((e, j)) => if i < j && j <= ts.len() {
                parse_bxor_rest(ts, j, e)
            } else {
                None
            },
            None => None,
        }
    }
}

fn parse_bxor_rest(ts: &Vec<Token>, i: usize, acc: Expr) -> (r: Option<(Expr, usize)>)
    ensures
        parse_view(r) == spec_bxor_rest(ts@, i as int, acc),
    decreases ts.len() - i, 10int,
{
    if i < ts.len() && ts[i] == Token::Caret {
        let op = ts[i];
        match parse_band(ts, i + 1) {
            Some((rhs, j)) => if i < j && j <= ts.len() {
                parse_bxor_rest(ts, j, make_bin(op, acc, rhs))
            } else {
                None
            },
            None => None,
        }
    } else {
        Some((acc, i))
    }
}

fn parse_bor(ts: &Vec<Token>, i: usize) -> (r: Option<(Expr, usize)>)
    ensures
        parse_view(r) == spec_bor(ts@, i as int),
    decreases ts.len() - i, 13int,
{
    if i >= ts.len() {
        None
    } else {
        match parse_bxor(ts, i) {
            Some((e, j)) => if i < j && j <= ts.len() {
                parse_bor_rest(ts, j, e)
            } else {
                None
            },
            None => None,
        }
    }
}

fn parse_bor_rest(ts: &Vec<Token>, i: usize, acc: Expr) -> (r: Option<(Expr, usize)>)
    ensures
        parse_view(r) == spec_bor_rest(ts@, i as int, acc),
    decreases ts.len() - i, 12int,
{
    if i < ts.len() && ts[i] == Token::Pipe {
        let op = ts[i];
        match parse_bxor(ts, i + 1) {
            Some((rhs, j)) => if i < j && j <= ts.len() {
                parse_bor_rest(ts, j, make_bin(op, acc, rhs))
            } else {
                None
            },
            None => None,
        }
    } else {
        Some((acc, i))
    }
}

/// Parses a token sequence into the one expression that spans all of it.
pub fn parse_tokens(ts: &Vec<Token>) -> (r: Result<Expr, CompileError>)
    ensures
        r == spec_parse_tokens(ts@),
{
    match parse_bor(ts, 0) {
        Some((e, j)) => if j == ts.len() {
            Ok(e)
        } else {
            Err(CompileError::Syntax)
        },
        None => Err(CompileError::Syntax),
    }
}

/// Compiles formula text into an expression: exactly [`spec_compile`] on
/// the text's bytes, the error telling why an ill-formed formula was
/// rejected.
pub fn compile(src: &str) -> (r: Result<Expr, CompileError>)
    ensures
        r == spec_compile(src.spec_bytes()),
{
    match tokenize(src) {
        Ok(toks) => parse_tokens(&toks),
        Err(e) => Err(e),
    }
}

} // verus!
