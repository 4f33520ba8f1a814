//! Bit-pattern model of IEEE-754 binary64 values.
//!
//! A 64-bit float is carried through the library as its raw bit pattern
//! (`f64::to_bits`). The comparisons the calculus decisions rest on are exact
//! on the pattern: both floating-point zeros clear to the empty pattern once
//! the sign bit is dropped, the unsigned order of the sign-cleared patterns is
//! the magnitude order of finite values and infinities, and a NaN never
//! compares greater than anything.

use vstd::prelude::*;

verus! {

/// Every bit but the sign bit.
pub const ABS_MASK: u64 = 0x7fff_ffff_ffff_ffff;

/// The sign bit alone; toggling it negates the value a pattern encodes.
pub const SIGN_MASK: u64 = 0x8000_0000_0000_0000;

/// Exponent field all ones, significand empty: the infinity pattern. Any
/// sign-cleared pattern strictly above it encodes a NaN.
pub const INF_BITS: u64 = 0x7ff0_0000_0000_0000;

/// The pattern with the sign bit cleared: the bits of the absolute value.
pub open spec fn abs_bits(b: u64) -> u64 {
    b & ABS_MASK
}

/// Whether `b` encodes a floating-point zero, of either sign.
pub open spec fn is_zero_bits(b: u64) -> bool {
    abs_bits(b) == 0
}

/// Whether `b` encodes a NaN.
pub open spec fn is_nan_bits(b: u64) -> bool {
    abs_bits(b) > INF_BITS
}

/// IEEE-754 `|x| > |y|` on the encoded values: false whenever either operand
/// is NaN, otherwise the unsigned order of the sign-cleared patterns.
pub open spec fn magnitude_gt_bits(x: u64, y: u64) -> bool {
    &&& !is_nan_bits(x)
    &&& !is_nan_bits(y)
    &&& abs_bits(x) > abs_bits(y)
}

/// Tests for the two zero patterns, `+0.0` and `-0.0`.
pub fn is_zero(b: u64) -> (r: bool)
    ensures
        r == is_zero_bits(b),
{
    (b & ABS_MASK) == 0
}

/// Tests for a NaN pattern.
pub fn is_nan(b: u64) -> (r: bool)
    ensures
        r == is_nan_bits(b),
{
    (b & ABS_MASK) > INF_BITS
}

/// Decides `|x| > |y|` on the encoded values.
pub fn magnitude_exceeds(x: u64, y: u64) -> (r: bool)
    ensures
        r == magnitude_gt_bits(x, y),
{
    !is_nan(x) && !is_nan(y) && (x & ABS_MASK) > (y & ABS_MASK)
}

/// The magnitude of a pattern is blind to its sign bit: negating the encoded
/// value (toggling the sign bit) or taking its absolute value (clearing the
/// sign bit) leaves `abs_bits` unchanged.
pub proof fn lemma_abs_bits_sign_blind(b: u64)
    ensures
        abs_bits(b ^ SIGN_MASK) == abs_bits(b),
        abs_bits(b & ABS_MASK) == abs_bits(b),
{
    assert((b ^ 0x8000_0000_0000_0000) & 0x7fff_ffff_ffff_ffff == b
        & 0x7fff_ffff_ffff_ffff) by (bit_vector);
    assert((b & 0x7fff_ffff_ffff_ffff) & 0x7fff_ffff_ffff_ffff == b
        & 0x7fff_ffff_ffff_ffff) by (bit_vector);
}

} // verus!
