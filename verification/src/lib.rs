//! A bytebeat synthesis engine: a user-editable integer/bitwise formula is
//! compiled into a pure function of an advancing integer time index, evaluated
//! at audio rate over a block of time values, and normalized from the
//! conventional 8-bit range into a bounded signed sample range.

pub mod engine;
pub mod expr;
pub mod laws;
pub mod lex;
pub mod norm;
pub mod parse;
pub mod time;
