//! Window opacity levels.
//!
//! An opacity travels through this crate as the IEEE 754 binary64 bit
//! pattern of the level, so that the library stays free of floating point
//! arithmetic while callers lose no precision: `f64::to_bits` on the way in,
//! `f64::from_bits` on the way out.
//!
//! For finite values of one sign the order of the bit patterns is the order
//! of the numbers they encode, which is all that clamping needs.

use vstd::prelude::*;

verus! {

/// Bit pattern of `0.5`, the most transparent level a window may take.
pub const OPACITY_MIN_BITS: u64 = 0x3FE0_0000_0000_0000;

/// Bit pattern of `1.0`, a fully opaque window. This is the initial level.
pub const OPACITY_MAX_BITS: u64 = 0x3FF0_0000_0000_0000;

/// Bit pattern of positive infinity: every larger pattern with a clear sign
/// bit is a NaN.
pub const POSITIVE_INFINITY_BITS: u64 = 0x7FF0_0000_0000_0000;

/// Smallest bit pattern whose sign bit is set (negative zero).
pub const NEGATIVE_ZERO_BITS: u64 = 0x8000_0000_0000_0000;

/// Bit pattern of negative infinity: every larger pattern is a NaN.
pub const NEGATIVE_INFINITY_BITS: u64 = 0xFFF0_0000_0000_0000;

/// Whether `bits` encodes a NaN of either sign.
pub open spec fn is_nan_bits(bits: u64) -> bool {
    (POSITIVE_INFINITY_BITS < bits && bits < NEGATIVE_ZERO_BITS) || NEGATIVE_INFINITY_BITS < bits
}

/// Whether `bits` encodes a number below zero, negative zero or negative
/// infinity.
pub open spec fn is_negative_bits(bits: u64) -> bool {
    NEGATIVE_ZERO_BITS <= bits && bits <= NEGATIVE_INFINITY_BITS
}

/// Whether `bits` encodes a level between `0.5` and `1.0`, both included.
pub open spec fn is_opacity_level(bits: u64) -> bool {
    OPACITY_MIN_BITS <= bits && bits <= OPACITY_MAX_BITS
}

/// The level that a requested opacity is stored as.
///
/// Requests below `0.5` (negative numbers and negative infinity among them)
/// become `0.5`, requests above `1.0` (positive infinity among them) become
/// `1.0`, and a request inside the range is kept bit for bit. A NaN carries
/// no level at all and selects the initial, fully opaque one.
pub open spec fn clamp_opacity_bits(bits: u64) -> u64 {
    if is_nan_bits(bits) {
        OPACITY_MAX_BITS
    } else if is_negative_bits(bits) || bits < OPACITY_MIN_BITS {
        OPACITY_MIN_BITS
    } else if bits > OPACITY_MAX_BITS {
        OPACITY_MAX_BITS
    } else {
        bits
    }
}

/// Clamps a requested opacity into the range of levels a window may take.
pub fn clamp_opacity(bits: u64) -> (level: u64)
    ensures
        level == clamp_opacity_bits(bits),
        is_opacity_level(level),
{
    if bits > NEGATIVE_INFINITY_BITS {
        OPACITY_MAX_BITS
    } else if bits >= NEGATIVE_ZERO_BITS {
        OPACITY_MIN_BITS
    } else if bits > POSITIVE_INFINITY_BITS {
        OPACITY_MAX_BITS
    } else if bits < OPACITY_MIN_BITS {
        OPACITY_MIN_BITS
    } else if bits > OPACITY_MAX_BITS {
        OPACITY_MAX_BITS
    } else {
        bits
    }
}

/// Every request is stored as a level between `0.5` and `1.0`.
pub proof fn lemma_clamp_in_range(bits: u64)
    ensures
        is_opacity_level(clamp_opacity_bits(bits)),
{
}

/// A level inside the range is stored unchanged.
pub proof fn lemma_clamp_keeps_levels(bits: u64)
    requires
        is_opacity_level(bits),
    ensures
        clamp_opacity_bits(bits) == bits,
{
}

/// Clamping is idempotent: requesting what was stored stores the same level
/// again.
pub proof fn lemma_clamp_idempotent(bits: u64)
    ensures
        clamp_opacity_bits(clamp_opacity_bits(bits)) == clamp_opacity_bits(bits),
{
}

/// Among requests that are numbers of the same sign, a larger request never
/// yields a smaller level.
pub proof fn lemma_clamp_monotone(low: u64, high: u64)
    requires
        low <= high,
        high <= POSITIVE_INFINITY_BITS,
    ensures
        clamp_opacity_bits(low) <= clamp_opacity_bits(high),
{
}

} // verus!
