//! The tokenizer for formula text.
//!
//! A formula is read as its UTF-8 bytes: ASCII spaces and tabs and line
//! breaks separate tokens, a run of ASCII digits is one decimal literal, the
//! letter `t` is the time variable, and the operator and parenthesis
//! characters stand for themselves, with `<<` and `>>` read as one token
//! each. Any other byte is rejected, so any non-ASCII text is rejected at
//! its first such byte.

use vstd::prelude::*;
use vstd::string::StringSliceAdditionalSpecFns;

verus! {

/// A lexical token of the formula grammar.
#[derive(Clone, Copy, PartialEq, Eq, Structural, Debug)]
pub enum Token {
    /// A decimal literal.
    Num(i64),
    /// The time variable `t`.
    TVar,
    Plus,
    Minus,
    Star,
    Slash,
    Percent,
    Amp,
    Pipe,
    Caret,
    Tilde,
    /// `<<`
    Shl,
    /// `>>`
    Shr,
    LParen,
    RParen,
}

/// Why a formula failed to compile.
#[derive(Clone, Copy, PartialEq, Eq, Structural, Debug)]
pub enum CompileError {
    /// A byte outside the formula alphabet (this includes any non-ASCII
    /// text, and a lone `<` or `>`).
    BadChar,
    /// A decimal literal too large for an `i64`.
    NumTooLarge,
    /// The tokens do not form an expression of the grammar.
    Syntax,
}

impl CompileError {
    /// A short description of the error, for display beside the formula
    /// editor.
    pub fn message(&self) -> (r: &'static str)
        ensures
            *self == CompileError::BadChar ==> r@ == "unexpected character in formula"@,
            *self == CompileError::NumTooLarge ==> r@ == "numeric literal too large"@,
            *self == CompileError::Syntax ==> r@ == "malformed expression"@,
    {
        match self {
            CompileError::BadChar => "unexpected character in formula",
            CompileError::NumTooLarge => "numeric literal too large",
            CompileError::Syntax => "malformed expression",
        }
    }
}

/// Whether a byte is ASCII whitespace accepted between tokens.
pub open spec fn is_space(c: u8) -> bool {
    c == 32 || c == 9 || c == 10 || c == 13
}

/// Whether a byte is an ASCII decimal digit.
pub open spec fn is_digit(c: u8) -> bool {
    48 <= c && c <= 57
}

/// The length of the run of digits starting at position `i`.
pub open spec fn num_len(s: Seq<u8>, i: int) -> nat
    decreases s.len() - i,
{
    if 0 <= i < s.len() && is_digit(s[i]) {
        (1 + num_len(s, i + 1)) as nat
    } else {
        0
    }
}

/// The decimal value of the `k` digits starting at position `i`.
pub open spec fn num_val(s: Seq<u8>, i: int, k: nat) -> int
    decreases k,
{
    if k == 0 {
        0
    } else {
        num_val(s, i, (k - 1) as nat) * 10 + (s[i + k - 1] - 48)
    }
}

/// A run of digits ends within the sequence.
pub proof fn lemma_num_len_le(s: Seq<u8>, i: int)
    requires
        0 <= i <= s.len(),
    ensures
        i + num_len(s, i) <= s.len(),
    decreases s.len() - i,
{
    if i < s.len() && is_digit(s[i]) {
        lemma_num_len_le(s, i + 1);
    }
}

/// Prepends one token to a tokenization outcome.
pub open spec fn cons_token(t: Token, rest: Result<Seq<Token>, CompileError>) -> Result<
    Seq<Token>,
    CompileError,
> {
    match rest {
        Ok(ts) => Ok(seq![t] + ts),
        Err(e) => Err(e),
    }
}

/// Prepends finished tokens to a tokenization outcome.
pub open spec fn cons_all(done: Seq<Token>, rest: Result<Seq<Token>, CompileError>) -> Result<
    Seq<Token>,
    CompileError,
> {
    match rest {
        Ok(ts) => Ok(done + ts),
        Err(e) => Err(e),
    }
}

/// The tokens of the byte sequence from position `i` on, or the first
/// lexical error.
pub open spec fn spec_tokenize_at(s: Seq<u8>, i: int) -> Result<Seq<Token>, CompileError>
    decreases s.len() - i,
    via spec_tokenize_at_dec
{
    if i < 0 || i >= s.len() {
        Ok(Seq::empty())
    } else {
        let c = s[i];
        if is_space(c) {
            spec_tokenize_at(s, i + 1)
        } else if is_digit(c) {
            let v = num_val(s, i, num_len(s, i));
            if v > i64::MAX {
                Err(CompileError::NumTooLarge)
            } else {
                cons_token(Token::Num(v as i64), spec_tokenize_at(s, i + num_len(s, i)))
            }
        } else if c == 116 {  // t
            cons_token(Token::TVar, spec_tokenize_at(s, i + 1))
        } else if c == 43 {  // +
            cons_token(Token::Plus, spec_tokenize_at(s, i + 1))
        } else if c == 45 {  // -
            cons_token(Token::Minus, spec_tokenize_at(s, i + 1))
        } else if c == 42 {  // *
            cons_token(Token::Star, spec_tokenize_at(s, i + 1))
        } else if c == 47 {  // /
            cons_token(Token::Slash, spec_tokenize_at(s, i + 1))
        } else if c == 37 {  // %
            cons_token(Token::Percent, spec_tokenize_at(s, i + 1))
        } else if c == 38 {  // &
            cons_token(Token::Amp, spec_tokenize_at(s, i + 1))
        } else if c == 124 {  // |
            cons_token(Token::Pipe, spec_tokenize_at(s, i + 1))
        } else if c == 94 {  // ^
            cons_token(Token::Caret, spec_tokenize_at(s, i + 1))
        } else if c == 126 {  // ~
            cons_token(Token::Tilde, spec_tokenize_at(s, i + 1))
        } else if c == 40 {  // (
            cons_token(Token::LParen, spec_tokenize_at(s, i + 1))
        } else if c == 41 {  // )
            cons_token(Token::RParen, spec_tokenize_at(s, i + 1))
        } else if c == 60 {  // <
            if i + 1 < s.len() && s[i + 1] == 60 {
                cons_token(Token::Shl, spec_tokenize_at(s, i + 2))
            } else {
                Err(CompileError::BadChar)
            }
        } else if c == 62 {  // >
            if i + 1 < s.len() && s[i + 1] == 62 {
                cons_token(Token::Shr, spec_tokenize_at(s, i + 2))
            } else {
                Err(CompileError::BadChar)
            }
        } else {
            Err(CompileError::BadChar)
        }
    }
}

#[via_fn]
proof fn spec_tokenize_at_dec(s: Seq<u8>, i: int) {
    if 0 <= i < s.len() && is_digit(s[i]) {
        lemma_num_len_le(s, i);
    }
}

/// The tokens of a whole formula text, read as its UTF-8 bytes.
pub open spec fn spec_tokenize(s: Seq<u8>) -> Result<Seq<Token>, CompileError> {
    spec_tokenize_at(s, 0)
}

/// A token vector outcome, seen abstractly.
pub open spec fn toks_view(r: Result<Vec<Token>, CompileError>) -> Result<
    Seq<Token>,
    CompileError,
> {
    match r {
        Ok(v) => Ok(v@),
        Err(e) => Err(e),
    }
}

/// Consuming one token at position `i`, ending at `j`, moves it from the
/// pending tokenization to the finished tokens.
proof fn lemma_tok_step(
    s: Seq<u8>,
    done: Seq<Token>,
    tok: Token,
    i: int,
    j: int,
)
    requires
        spec_tokenize_at(s, 0) == cons_all(done, spec_tokenize_at(s, i)),
        spec_tokenize_at(s, i) == cons_token(tok, spec_tokenize_at(s, j)),
    ensures
        spec_tokenize_at(s, 0) == cons_all(done.push(tok), spec_tokenize_at(s, j)),
{
    match spec_tokenize_at(s, j) {
        Ok(rest) => {
            assert(done + (seq![tok] + rest) =~= done.push(tok) + rest);
        },
        Err(_) => {},
    }
}

/// Tokenizes formula text, producing exactly the tokens of
/// [`spec_tokenize`] on its bytes, or its first error.
pub fn tokenize(src: &str) -> (r: Result<Vec<Token>, CompileError>)
    ensures
        toks_view(r) == spec_tokenize(src.spec_bytes()),
{
    let bytes: &[u8] = src.as_bytes();
    let ghost s = bytes@;
    let n: usize = bytes.len();
    let mut toks: Vec<Token> = Vec::new();
    let mut i: usize = 0;
    proof {
        match spec_tokenize_at(s, 0) {
            Ok(rest) => {
                assert(toks@ + rest =~= rest);
            },
            Err(_) => {},
        }
    }
    while i < n
        invariant
            i <= n,
            n == s.len(),
            s == bytes@,
            s == src.spec_bytes(),
            spec_tokenize_at(s, 0) == cons_all(toks@, spec_tokenize_at(s, i as int)),
        decreases n - i,
    {
        let c: u8 = bytes[i];
        if c == 32 || c == 9 || c == 10 || c == 13 {
            i += 1;
        } else if 48 <= c && c <= 57 {
            let ghost start = i as int;
            let ghost pre = toks@;
            let mut val: i64 = 0;
            let mut overflow: bool = false;
            while i < n && 48 <= bytes[i] && bytes[i] <= 57
                invariant
                    0 <= start <= i as int,
                    i <= n,
                    n == s.len(),
                    s == bytes@,
                    s == src.spec_bytes(),
                    is_digit(s[start]),
                    forall|j: int| start <= j < i as int ==> is_digit(s[j]),
                    num_len(s, start) == (i as int - start) + num_len(s, i as int),
                    !overflow ==> 0 <= val && val == num_val(s, start, (i as int - start) as nat),
                    overflow ==> num_val(s, start, (i as int - start) as nat) > i64::MAX,
                    toks@ == pre,
                    spec_tokenize_at(s, 0) == cons_all(pre, spec_tokenize_at(s, start)),
                decreases n - i,
            {
                let d: u8 = bytes[i] - 48;
                proof {
                    let k = (i as int - start) as nat;
                    assert(num_val(s, start, (k + 1) as nat) == num_val(s, start, k) * 10 + (
                    s[start + k] - 48));
                }
                if overflow {
                } else if (val as u64) <= (0x7fff_ffff_ffff_ffffu64 - d as u64) / 10 {
                    val = val * 10 + d as i64;
                } else {
                    overflow = true;
                }
                i += 1;
            }
            proof {
                assert(num_len(s, i as int) == 0);
                assert(num_len(s, start) == (i as int - start) as nat);
            }
            if overflow {
                return Err(CompileError::NumTooLarge);
            }
            toks.push(Token::Num(val));
            proof {
                lemma_tok_step(s, pre, Token::Num(val), start, i as int);
            }
        } else if c == 116 {
            let ghost pre = toks@;
            toks.push(Token::TVar);
            proof {
                lemma_tok_step(s, pre, Token::TVar, i as int, i as int + 1);
            }
            i += 1;
        } else if c == 43 {
            let ghost pre = toks@;
            toks.push(Token::Plus);
            proof {
                lemma_tok_step(s, pre, Token::Plus, i as int, i as int + 1);
            }
            i += 1;
        } else if c == 45 {
            let ghost pre = toks@;
            toks.push(Token::Minus);
            proof {
                lemma_tok_step(s, pre, Token::Minus, i as int, i as int + 1);
            }
            i += 1;
        } else if c == 42 {
            let ghost pre = toks@;
            toks.push(Token::Star);
            proof {
                lemma_tok_step(s, pre, Token::Star, i as int, i as int + 1);
            }
            i += 1;
        } else if c == 47 {
            let ghost pre = toks@;
            toks.push(Token::Slash);
            proof {
                lemma_tok_step(s, pre, Token::Slash, i as int, i as int + 1);
            }
            i += 1;
        } else if c == 37 {
            let ghost pre = toks@;
            toks.push(Token::Percent);
            proof {
                lemma_tok_step(s, pre, Token::Percent, i as int, i as int + 1);
            }
            i += 1;
        } else if c == 38 {
            let ghost pre = toks@;
            toks.push(Token::Amp);
            proof {
                lemma_tok_step(s, pre, Token::Amp, i as int, i as int + 1);
            }
            i += 1;
        } else if c == 124 {
            let ghost pre = toks@;
            toks.push(Token::Pipe);
            proof {
                lemma_tok_step(s, pre, Token::Pipe, i as int, i as int + 1);
            }
            i += 1;
        } else if c == 94 {
            let ghost pre = toks@;
            toks.push(Token::Caret);
            proof {
                lemma_tok_step(s, pre, Token::Caret, i as int, i as int + 1);
            }
            i += 1;
        } else if c == 126 {
            let ghost pre = toks@;
            toks.push(Token::Tilde);
            proof {
                lemma_tok_step(s, pre, Token::Tilde, i as int, i as int + 1);
            }
            i += 1;
        } else if c == 40 {
            let ghost pre = toks@;
            toks.push(Token::LParen);
            proof {
                lemma_tok_step(s, pre, Token::LParen, i as int, i as int + 1);
            }
            i += 1;
        } else if c == 41 {
            let ghost pre = toks@;
            toks.push(Token::RParen);
            proof {
                lemma_tok_step(s, pre, Token::RParen, i as int, i as int + 1);
            }
            i += 1;
        } else if c == 60 {
            if i + 1 < n && bytes[i + 1] == 60 {
                let ghost pre = toks@;
                toks.push(Token::Shl);
                proof {
                    lemma_tok_step(s, pre, Token::Shl, i as int, i as int + 2);
                }
                i += 2;
            } else {
                return Err(CompileError::BadChar);
            }
        } else if c == 62 {
            if i + 1 < n && bytes[i + 1] == 62 {
                let ghost pre = toks@;
                toks.push(Token::Shr);
                proof {
                    lemma_tok_step(s, pre, Token::Shr, i as int, i as int + 2);
                }
                i += 2;
            } else {
                return Err(CompileError::BadChar);
            }
        } else {
            return Err(CompileError::BadChar);
        }
    }
    proof {
        match spec_tokenize_at(s, i as int) {
            Ok(rest) => {
                assert(toks@ + rest =~= toks@);
            },
            Err(_) => {},
        }
    }
    Ok(toks)
}

} // verus!
