//! Sample normalization.
//!
//! A raw integer sample is mapped through its low 8 bits into the
//! conventional bytebeat output range: `(raw & 255) / 127 - 1`, which lies in
//! `[-1, 128/127]`, and a fixed trim of one half is applied to tame the
//! genre's loudness. Both are carried exactly as one integer numerator over
//! the fixed denominator [`SCALE`]: the trimmed sample value is
//! `numerator / 254`, since `((raw & 255) / 127 - 1) / 2 == ((raw & 255) - 127) / 254`.
//! Consumers divide by [`SCALE`] in their own floating type.

use vstd::prelude::*;

verus! {

/// The fixed denominator of a normalized, trimmed sample numerator: twice
/// 127, the trim factor of one half folded into the 8-bit normalization.
pub const SCALE: i16 = 254;

/// The numerator of the normalized, trimmed sample for a raw sample: the
/// trimmed output value is exactly `spec_norm(raw) / 254`.
pub open spec fn spec_norm(raw: i64) -> int {
    (raw & 255) - 127
}

/// Normalizes a raw sample to its trimmed output numerator over [`SCALE`].
pub fn norm_sample(raw: i64) -> (n: i16)
    ensures
        n == spec_norm(raw),
        -127 <= n <= 128,
{
    proof {
        assert(0 <= (raw & 255) <= 255) by (bit_vector);
    }
    let low: i64 = raw & 255;
    (low - 127) as i16
}

/// Every raw sample normalizes into `[-127, 128]`, strictly inside the
/// denominator [`SCALE`], so every trimmed output sample value
/// `spec_norm(raw) / 254` lies in `[-1, 1)`; the trim is exactly the factor
/// two in the denominator, halving the pre-trim range `[-1, 128/127]`.
pub proof fn lemma_norm_bounded(raw: i64)
    ensures
        -127 <= spec_norm(raw) <= 128,
        -254 < spec_norm(raw) < 254,
{
    assert(0 <= (raw & 255) <= 255) by (bit_vector);
}

} // verus!
