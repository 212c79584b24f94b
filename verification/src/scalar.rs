//! Scalar words.
//!
//! Every scalar that the renderer and the simulation exchange is a 32-bit
//! word holding the IEEE-754 single-precision bit pattern of the value.
//! The library never does floating-point arithmetic itself: it stores,
//! moves and lays out words, and checks their bit-level classification.
//! The numeric work (integration, trigonometry, division) happens at the
//! boundary, which hands the resulting words in.

use vstd::prelude::*;

verus! {

/// Word of the value zero.
pub const WORD_ZERO: u32 = 0x0000_0000;

/// Word of the value one.
pub const WORD_ONE: u32 = 0x3f80_0000;

/// Word of the value one half.
pub const WORD_HALF: u32 = 0x3f00_0000;

/// Word of the value minus one half.
pub const WORD_NEG_HALF: u32 = 0xbf00_0000;

/// Smallest word above every finite positive value: the positive-infinity
/// pattern. Words at or above it (with the sign bit clear) are infinities
/// or not-a-number patterns.
pub const WORD_POS_INFINITY: u32 = 0x7f80_0000;

/// The sign bit of a scalar word.
pub const WORD_SIGN_BIT: u32 = 0x8000_0000;

/// Whether a word encodes a strictly positive finite value: the sign bit is
/// clear, the magnitude is non-zero and below the infinity pattern.
pub open spec fn word_is_positive_finite(w: u32) -> bool {
    0 < w < WORD_POS_INFINITY
}

/// Whether a word encodes a finite value (of either sign, zero included).
pub open spec fn word_is_finite(w: u32) -> bool {
    (w & !WORD_SIGN_BIT) < WORD_POS_INFINITY
}

/// The word of the negated value: the sign bit flipped.
pub open spec fn word_neg(w: u32) -> u32 {
    w ^ WORD_SIGN_BIT
}

/// Decides whether a word encodes a strictly positive finite value.
pub fn check_positive_finite(w: u32) -> (r: bool)
    ensures
        r == word_is_positive_finite(w),
{
    0 < w && w < WORD_POS_INFINITY
}

/// Decides whether a word encodes a finite value.
pub fn check_finite(w: u32) -> (r: bool)
    ensures
        r == word_is_finite(w),
{
    (w & !WORD_SIGN_BIT) < WORD_POS_INFINITY
}

/// Negates a scalar by flipping its sign bit.
pub fn negate_word(w: u32) -> (r: u32)
    ensures
        r == word_neg(w),
{
    w ^ WORD_SIGN_BIT
}

} // verus!
