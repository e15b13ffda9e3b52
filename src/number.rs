//! Binary64 numbers held as their bit patterns.
use vstd::prelude::*;

verus! {

/// Bits of the binary64 exponent field.
pub const EXPONENT_MASK: u64 = 0x7ff0_0000_0000_0000;

/// Bits of the binary64 significand field.
pub const SIGNIFICAND_MASK: u64 = 0x000f_ffff_ffff_ffff;

/// Bit pattern of positive zero.
pub const ZERO_BITS: u64 = 0;

/// A binary64 bit pattern is not-a-number when its exponent is all ones and
/// its significand is not zero.
pub open spec fn is_nan_bits(bits: u64) -> bool {
    (bits & EXPONENT_MASK) == EXPONENT_MASK && (bits & SIGNIFICAND_MASK) != 0
}

/// The value the plugin receives for one magnitude: missing data (not-a-number)
/// becomes zero, every other value is kept bit for bit.
pub open spec fn missing_as_zero(bits: u64) -> u64 {
    if is_nan_bits(bits) {
        ZERO_BITS
    } else {
        bits
    }
}

/// Whether the binary64 number with these bits is not-a-number.
pub fn is_nan(bits: u64) -> (r: bool)
    ensures
        r == is_nan_bits(bits),
{
    (bits & EXPONENT_MASK) == EXPONENT_MASK && (bits & SIGNIFICAND_MASK) != 0
}

/// Replaces a not-a-number magnitude by zero.
pub fn sanitize(bits: u64) -> (r: u64)
    ensures
        r == missing_as_zero(bits),
{
    if is_nan(bits) {
        ZERO_BITS
    } else {
        bits
    }
}

} // verus!
