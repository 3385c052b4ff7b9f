//! Artifact rejection on single-precision amplitudes.
//!
//! An amplitude is handled here through the 32 bits of its IEEE 754 binary32 encoding:
//! one sign bit, eight exponent bits and twenty-three fraction bits, from the top. Taken
//! without the sign bit, the encodings of two numbers compare as the magnitudes of the
//! numbers do, so clipping needs no arithmetic on the numbers themselves.

use vstd::prelude::*;

verus! {

/// The sign bit of an encoding.
pub const SIGN_BIT: u32 = 0x8000_0000;

/// The bits of an encoding that hold the magnitude.
pub const MAGNITUDE_BITS: u32 = 0x7fff_ffff;

/// The encoding of positive infinity. Larger magnitudes do not encode numbers.
pub const INFINITY: u32 = 0x7f80_0000;

/// The encoding of 300, the largest magnitude that passes unclipped.
pub const LIMIT: u32 = 0x4396_0000;

/// The encoding without its sign.
pub open spec fn magnitude(bits: u32) -> u32 {
    bits & MAGNITUDE_BITS
}

/// The sign bit of the encoding, in place.
pub open spec fn sign(bits: u32) -> u32 {
    bits & SIGN_BIT
}

/// Whether the encoding stands for a number, finite or infinite, rather than for the
/// outcome of an undefined operation.
pub open spec fn is_number(bits: u32) -> bool {
    magnitude(bits) <= INFINITY
}

/// Whether the encoding stands for a number whose magnitude exceeds 300.
pub open spec fn exceeds_limit(bits: u32) -> bool {
    LIMIT < magnitude(bits) <= INFINITY
}

/// The encoding after clipping: a number whose magnitude exceeds 300 becomes 300 with the
/// sign it had, and everything else stays as it is.
pub open spec fn clipped(bits: u32) -> u32 {
    if exceeds_limit(bits) {
        sign(bits) | LIMIT
    } else {
        bits
    }
}

/// Clips an amplitude to the range from -300 to 300.
pub fn clip(bits: u32) -> (out: u32)
    ensures
        out == clipped(bits),
{
    let size: u32 = bits & MAGNITUDE_BITS;
    if size > LIMIT && size <= INFINITY {
        (bits & SIGN_BIT) | LIMIT
    } else {
        bits
    }
}

/// Clipping law: an amplitude whose magnitude exceeds 300 comes out with magnitude exactly
/// 300 and its sign unchanged; any other amplitude comes out unchanged; and no amplitude
/// that comes out exceeds 300, so clipping twice is clipping once.
pub proof fn lemma_clipping(bits: u32)
    ensures
        sign(clipped(bits)) == sign(bits),
        exceeds_limit(bits) ==> magnitude(clipped(bits)) == LIMIT,
        !exceeds_limit(bits) ==> clipped(bits) == bits,
        !exceeds_limit(clipped(bits)),
        clipped(clipped(bits)) == clipped(bits),
        is_number(bits) ==> magnitude(clipped(bits)) <= LIMIT,
{
    let kept = bits & 0x8000_0000u32;
    assert((kept | 0x4396_0000u32) & 0x8000_0000u32 == kept) by (bit_vector)
        requires
            kept == bits & 0x8000_0000u32,
    ;
    assert((kept | 0x4396_0000u32) & 0x7fff_ffffu32 == 0x4396_0000u32) by (bit_vector)
        requires
            kept == bits & 0x8000_0000u32,
    ;
}

} // verus!
