//! IEEE-754 double-precision values as bit patterns, and an order-preserving
//! integer key.
//!
//! The decision logic of the generator only ever classifies and compares
//! kinematic quantities; it never does arithmetic on them. Callers hand each
//! value over as its raw IEEE-754 bit pattern (a `u64`). This module defines
//! the bit-level classification of such a pattern (not-a-number, infinite,
//! zero, negative) and a strictly monotone key: for patterns that are not
//! not-a-number, comparing keys as unsigned integers agrees with the numeric
//! order of the encoded values, once a negative zero has been normalized to a
//! positive one. The agreement is proved here against the bit-level order
//! predicate [`spec_bits_lt`].

use vstd::prelude::*;

verus! {

/// Mask of the sign bit of a double-precision pattern.
pub const SIGN_MASK: u64 = 0x8000_0000_0000_0000;

/// Mask of the exponent bits of a double-precision pattern.
pub const EXPONENT_MASK: u64 = 0x7ff0_0000_0000_0000;

/// Mask of the fraction bits of a double-precision pattern.
pub const FRACTION_MASK: u64 = 0x000f_ffff_ffff_ffff;

/// The bit pattern of a positive zero.
pub const ZERO_BITS: u64 = 0;

/// The key of a positive zero: [`spec_total_order_key`] applied to the
/// all-zero pattern. Keys of negative values lie below it, keys of positive
/// values above it.
pub const ZERO_KEY: u64 = 0x8000_0000_0000_0000;

/// Bit pattern of the machine epsilon of double precision: the spacing of
/// the values next to one.
pub const EPSILON_BITS: u64 = 0x3cb0_0000_0000_0000;

/// The magnitude of a pattern: everything but the sign bit.
pub open spec fn spec_magnitude(bits: u64) -> u64 {
    bits & 0x7fff_ffff_ffff_ffff
}

/// A pattern encodes not-a-number when its exponent is all ones and its
/// fraction is not zero.
pub open spec fn spec_is_nan(bits: u64) -> bool {
    bits & 0x7ff0_0000_0000_0000 == 0x7ff0_0000_0000_0000 && bits & 0x000f_ffff_ffff_ffff != 0
}

/// A pattern encodes an infinity when its exponent is all ones and its
/// fraction is zero.
pub open spec fn spec_is_infinite(bits: u64) -> bool {
    bits & 0x7ff0_0000_0000_0000 == 0x7ff0_0000_0000_0000 && bits & 0x000f_ffff_ffff_ffff == 0
}

/// A pattern encodes a zero (of either sign) when all bits but the sign are
/// clear.
pub open spec fn spec_is_zero(bits: u64) -> bool {
    spec_magnitude(bits) == 0
}

/// A pattern carries the sign of a negative value.
pub open spec fn spec_is_negative(bits: u64) -> bool {
    bits & 0x8000_0000_0000_0000 != 0
}

/// The numeric strictly-less-than order on two patterns that are not
/// not-a-number, written on the bits: among negative values a larger
/// magnitude is smaller, a negative value is below a positive one unless
/// both are zeros, and among positive values a larger magnitude is larger.
pub open spec fn spec_bits_lt(a: u64, b: u64) -> bool {
    if spec_is_negative(a) {
        if spec_is_negative(b) {
            spec_magnitude(a) > spec_magnitude(b)
        } else {
            !(spec_is_zero(a) && spec_is_zero(b))
        }
    } else {
        if spec_is_negative(b) {
            false
        } else {
            spec_magnitude(a) < spec_magnitude(b)
        }
    }
}

/// The order-preserving key of a pattern: a positive value keeps its bits
/// with the sign bit set, a negative value has all bits inverted.
pub open spec fn spec_total_order_key(bits: u64) -> u64 {
    if bits & 0x8000_0000_0000_0000 == 0 {
        bits | 0x8000_0000_0000_0000
    } else {
        !bits
    }
}

/// Replace the pattern of a negative zero by the pattern of a positive zero,
/// leaving every other pattern unchanged.
pub open spec fn spec_normalize_zero(bits: u64) -> u64 {
    if bits == 0x8000_0000_0000_0000 {
        0
    } else {
        bits
    }
}

/// Whether `bits` encodes not-a-number.
pub fn is_nan_bits(bits: u64) -> (r: bool)
    ensures
        r == spec_is_nan(bits),
{
    bits & EXPONENT_MASK == EXPONENT_MASK && bits & FRACTION_MASK != 0
}

/// Whether `bits` encodes a positive or negative infinity.
pub fn is_infinite_bits(bits: u64) -> (r: bool)
    ensures
        r == spec_is_infinite(bits),
{
    bits & EXPONENT_MASK == EXPONENT_MASK && bits & FRACTION_MASK == 0
}

/// Whether `bits` encodes a zero of either sign.
pub fn is_zero_bits(bits: u64) -> (r: bool)
    ensures
        r == spec_is_zero(bits),
{
    bits & 0x7fff_ffff_ffff_ffff == 0
}

/// Whether `bits` carries a negative sign.
pub fn is_negative_bits(bits: u64) -> (r: bool)
    ensures
        r == spec_is_negative(bits),
{
    bits & SIGN_MASK != 0
}

/// Replace a negative zero by a positive zero.
pub fn normalize_zero_bits(bits: u64) -> (r: u64)
    ensures
        r == spec_normalize_zero(bits),
{
    if bits == SIGN_MASK {
        0
    } else {
        bits
    }
}

/// The order-preserving key of a pattern.
pub fn total_order_key(bits: u64) -> (r: u64)
    ensures
        r == spec_total_order_key(bits),
{
    if bits & SIGN_MASK == 0 {
        bits | SIGN_MASK
    } else {
        !bits
    }
}

/// Numeric strictly-less-than on two patterns, as IEEE-754 defines it:
/// false when either operand is not-a-number.
pub open spec fn spec_lt(a: u64, b: u64) -> bool {
    !spec_is_nan(a) && !spec_is_nan(b) && spec_bits_lt(a, b)
}

/// Numeric equality on two patterns, as IEEE-754 defines it: false when
/// either operand is not-a-number, true on zeros of different sign.
pub open spec fn spec_num_eq(a: u64, b: u64) -> bool {
    !spec_is_nan(a) && !spec_is_nan(b) && spec_normalize_zero(a) == spec_normalize_zero(b)
}

/// Numeric less-than-or-equal on two patterns, as IEEE-754 defines it:
/// false when either operand is not-a-number.
pub open spec fn spec_le(a: u64, b: u64) -> bool {
    spec_lt(a, b) || spec_num_eq(a, b)
}

/// The negation of a pattern: the sign bit flipped.
pub open spec fn spec_neg(bits: u64) -> u64 {
    bits ^ 0x8000_0000_0000_0000
}

/// Whether the value of `a` is numerically below the value of `b`; false
/// when either is not-a-number.
pub fn bits_lt(a: u64, b: u64) -> (r: bool)
    ensures
        r == spec_lt(a, b),
{
    if is_nan_bits(a) || is_nan_bits(b) {
        return false;
    }
    let na = normalize_zero_bits(a);
    let nb = normalize_zero_bits(b);
    proof {
        lemma_normalize_zero_preserves_order(a, b);
        lemma_normalize_zero_preserves_order(b, a);
        lemma_key_orders_values(na, nb);
    }
    total_order_key(na) < total_order_key(nb)
}

/// Whether the values of `a` and `b` are numerically equal; false when
/// either is not-a-number, true on zeros of different sign.
pub fn bits_num_eq(a: u64, b: u64) -> (r: bool)
    ensures
        r == spec_num_eq(a, b),
{
    if is_nan_bits(a) || is_nan_bits(b) {
        return false;
    }
    normalize_zero_bits(a) == normalize_zero_bits(b)
}

/// Whether the value of `a` is numerically at or below the value of `b`;
/// false when either is not-a-number.
pub fn bits_le(a: u64, b: u64) -> (r: bool)
    ensures
        r == spec_le(a, b),
{
    bits_lt(a, b) || bits_num_eq(a, b)
}

/// The pattern of the absolute value: the magnitude of the given pattern.
pub fn abs_bits(bits: u64) -> (r: u64)
    ensures
        r == spec_magnitude(bits),
{
    bits & 0x7fff_ffff_ffff_ffff
}

/// The pattern of the negated value.
pub fn neg_bits(bits: u64) -> (r: u64)
    ensures
        r == spec_neg(bits),
{
    bits ^ SIGN_MASK
}

/// Negation flips the numeric order and keeps not-a-number patterns
/// not-a-number.
pub proof fn lemma_neg_bits(a: u64, b: u64)
    by (bit_vector)
    ensures
        spec_is_nan(spec_neg(a)) == spec_is_nan(a),
        spec_lt(spec_neg(a), spec_neg(b)) == spec_lt(b, a),
{
}

/// The key map is injective: equal keys come from equal patterns.
pub proof fn lemma_key_injective(a: u64, b: u64)
    by (bit_vector)
    ensures
        spec_total_order_key(a) == spec_total_order_key(b) ==> a == b,
{
}

/// For patterns that are not not-a-number and whose negative zero has been
/// normalized away, the unsigned order of the keys is exactly the numeric
/// order of the encoded values.
pub proof fn lemma_key_orders_values(a: u64, b: u64)
    by (bit_vector)
    requires
        !spec_is_nan(a),
        !spec_is_nan(b),
        a == spec_normalize_zero(a),
        b == spec_normalize_zero(b),
    ensures
        spec_total_order_key(a) < spec_total_order_key(b) <==> spec_bits_lt(a, b),
        spec_total_order_key(a) == spec_total_order_key(b) <==> a == b,
{
}

/// Normalizing the zero changes neither the classification of a pattern nor
/// its numeric order against any other pattern.
pub proof fn lemma_normalize_zero_preserves_order(a: u64, b: u64)
    by (bit_vector)
    ensures
        spec_is_nan(spec_normalize_zero(a)) == spec_is_nan(a),
        spec_is_infinite(spec_normalize_zero(a)) == spec_is_infinite(a),
        spec_is_zero(spec_normalize_zero(a)) == spec_is_zero(a),
        spec_bits_lt(spec_normalize_zero(a), spec_normalize_zero(b)) == spec_bits_lt(a, b),
{
}

/// The keys of the two infinities bound the keys of every other pattern that
/// is not not-a-number.
pub proof fn lemma_infinity_keys_are_extreme(a: u64)
    by (bit_vector)
    requires
        !spec_is_nan(a),
    ensures
        spec_total_order_key(a) <= spec_total_order_key(0x7ff0_0000_0000_0000u64),
        spec_total_order_key(a) >= spec_total_order_key(0xfff0_0000_0000_0000u64),
{
}

} // verus!
