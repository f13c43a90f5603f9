//! Scalar layer: IEEE-754 binary64 values carried as their bit patterns.
//!
//! The library computes on `u64` bit patterns throughout; the six arithmetic
//! operations below are the only places where a value is interpreted as a
//! floating-point number, and each is a single call into an outside crate.
//! The result of each operation is a function of the operand bits alone, so
//! each gets an uninterpreted name that the contracts of the rest of the
//! library are stated over.

use vstd::prelude::*;
use rustc_apfloat::Float;
use rustc_apfloat::ieee::Double;

verus! {

/// Bit pattern of +0.0.
pub const POS_ZERO: u64 = 0;
/// Bit pattern of -0.0 (also the sign mask).
pub const NEG_ZERO: u64 = 0x8000_0000_0000_0000;
/// Sign bit.
pub const SIGN_MASK: u64 = 0x8000_0000_0000_0000;
/// Exponent field.
pub const EXP_MASK: u64 = 0x7FF0_0000_0000_0000;
/// Fraction field.
pub const FRAC_MASK: u64 = 0x000F_FFFF_FFFF_FFFF;
/// Everything but the sign bit.
pub const ABS_MASK: u64 = 0x7FFF_FFFF_FFFF_FFFF;
/// Bit pattern of 1.0.
pub const ONE_BITS: u64 = 0x3FF0_0000_0000_0000;
/// Bit pattern of -3.0, the fixed decay coefficient of the kernel.
pub const NEG_THREE_BITS: u64 = 0xC008_0000_0000_0000;
/// Bit pattern of +infinity.
pub const POS_INF_BITS: u64 = 0x7FF0_0000_0000_0000;
/// Bit pattern of -infinity.
pub const NEG_INF_BITS: u64 = 0xFFF0_0000_0000_0000;

/// The bits encode a NaN: all-ones exponent with a nonzero fraction.
pub open spec fn is_nan_bits(a: u64) -> bool {
    (a & EXP_MASK) == EXP_MASK && (a & FRAC_MASK) != 0
}

/// The bits encode a finite number (neither infinity nor NaN).
pub open spec fn is_finite_bits(a: u64) -> bool {
    (a & EXP_MASK) != EXP_MASK
}

/// The bits encode +0.0 or -0.0.
pub open spec fn is_zero_bits(a: u64) -> bool {
    (a & ABS_MASK) == 0
}

/// The sign bit is set.
pub open spec fn sign_bit(a: u64) -> bool {
    (a & SIGN_MASK) == SIGN_MASK
}

/// The bits encode a value strictly greater than zero under IEEE-754
/// ordering: positive sign, not a zero, not a NaN.
pub open spec fn gt_zero_bits(a: u64) -> bool {
    !sign_bit(a) && a != POS_ZERO && !is_nan_bits(a)
}

/// Runtime test for `is_zero_bits`.
pub fn zero_value_bits(a: u64) -> (r: bool)
    ensures
        r == is_zero_bits(a),
{
    (a & ABS_MASK) == 0
}

/// Runtime test for `gt_zero_bits`.
pub fn positive_bits(a: u64) -> (r: bool)
    ensures
        r == gt_zero_bits(a),
{
    (a & SIGN_MASK) != SIGN_MASK && a != POS_ZERO && !((a & EXP_MASK) == EXP_MASK && (a & FRAC_MASK) != 0)
}

/// How the named constants fall under the bit-level classifications.
pub proof fn lemma_bit_classes()
    ensures
        is_zero_bits(POS_ZERO) && is_finite_bits(POS_ZERO) && !sign_bit(POS_ZERO) && !is_nan_bits(POS_ZERO),
        is_zero_bits(NEG_ZERO) && is_finite_bits(NEG_ZERO) && sign_bit(NEG_ZERO) && !is_nan_bits(NEG_ZERO),
        !is_zero_bits(ONE_BITS) && is_finite_bits(ONE_BITS) && !sign_bit(ONE_BITS) && !is_nan_bits(ONE_BITS),
        !is_zero_bits(NEG_THREE_BITS) && is_finite_bits(NEG_THREE_BITS) && sign_bit(NEG_THREE_BITS) && !is_nan_bits(NEG_THREE_BITS),
        !is_zero_bits(POS_INF_BITS) && !is_finite_bits(POS_INF_BITS) && !sign_bit(POS_INF_BITS) && !is_nan_bits(POS_INF_BITS),
        !is_zero_bits(NEG_INF_BITS) && !is_finite_bits(NEG_INF_BITS) && sign_bit(NEG_INF_BITS) && !is_nan_bits(NEG_INF_BITS),
        gt_zero_bits(ONE_BITS),
        gt_zero_bits(POS_INF_BITS),
        POS_ZERO ^ SIGN_MASK == NEG_ZERO,
        NEG_ZERO ^ SIGN_MASK == POS_ZERO,
{
    assert((0u64 ^ 0x8000_0000_0000_0000u64) == 0x8000_0000_0000_0000u64
        && (0x8000_0000_0000_0000u64 ^ 0x8000_0000_0000_0000u64) == 0u64) by (bit_vector);
    assert((0u64 & 0x7FF0_0000_0000_0000u64) != 0x7FF0_0000_0000_0000u64
        && (0u64 & 0x7FFF_FFFF_FFFF_FFFFu64) == 0u64
        && (0u64 & 0x8000_0000_0000_0000u64) != 0x8000_0000_0000_0000u64) by (bit_vector);
    assert((0x8000_0000_0000_0000u64 & 0x7FF0_0000_0000_0000u64) != 0x7FF0_0000_0000_0000u64
        && (0x8000_0000_0000_0000u64 & 0x7FFF_FFFF_FFFF_FFFFu64) == 0u64
        && (0x8000_0000_0000_0000u64 & 0x8000_0000_0000_0000u64) == 0x8000_0000_0000_0000u64) by (bit_vector);
    assert((0x3FF0_0000_0000_0000u64 & 0x7FF0_0000_0000_0000u64) != 0x7FF0_0000_0000_0000u64
        && (0x3FF0_0000_0000_0000u64 & 0x7FFF_FFFF_FFFF_FFFFu64) != 0u64
        && (0x3FF0_0000_0000_0000u64 & 0x8000_0000_0000_0000u64) != 0x8000_0000_0000_0000u64) by (bit_vector);
    assert((0xC008_0000_0000_0000u64 & 0x7FF0_0000_0000_0000u64) != 0x7FF0_0000_0000_0000u64
        && (0xC008_0000_0000_0000u64 & 0x7FFF_FFFF_FFFF_FFFFu64) != 0u64
        && (0xC008_0000_0000_0000u64 & 0x8000_0000_0000_0000u64) == 0x8000_0000_0000_0000u64) by (bit_vector);
    assert((0x7FF0_0000_0000_0000u64 & 0x7FF0_0000_0000_0000u64) == 0x7FF0_0000_0000_0000u64
        && (0x7FF0_0000_0000_0000u64 & 0x000F_FFFF_FFFF_FFFFu64) == 0u64
        && (0x7FF0_0000_0000_0000u64 & 0x7FFF_FFFF_FFFF_FFFFu64) != 0u64
        && (0x7FF0_0000_0000_0000u64 & 0x8000_0000_0000_0000u64) != 0x8000_0000_0000_0000u64) by (bit_vector);
    assert((0xFFF0_0000_0000_0000u64 & 0x7FF0_0000_0000_0000u64) == 0x7FF0_0000_0000_0000u64
        && (0xFFF0_0000_0000_0000u64 & 0x000F_FFFF_FFFF_FFFFu64) == 0u64
        && (0xFFF0_0000_0000_0000u64 & 0x7FFF_FFFF_FFFF_FFFFu64) != 0u64
        && (0xFFF0_0000_0000_0000u64 & 0x8000_0000_0000_0000u64) == 0x8000_0000_0000_0000u64) by (bit_vector);
}

/// A zero bit pattern is one of exactly two values: +0.0 or -0.0.
pub proof fn lemma_zero_forms(v: u64)
    ensures
        is_zero_bits(v) ==> v == POS_ZERO || v == NEG_ZERO,
{
    assert((v & 0x7FFF_FFFF_FFFF_FFFFu64) == 0 ==> v == 0u64 || v == 0x8000_0000_0000_0000u64)
        by (bit_vector);
}

/// Bits of the IEEE-754 binary64 sum of the values with bits `a` and `b`,
/// rounded to nearest, ties to even.
pub uninterp spec fn add_bits(a: u64, b: u64) -> u64;

/// Bits of the IEEE-754 binary64 difference of the values with bits `a`
/// and `b`, rounded to nearest, ties to even.
pub uninterp spec fn sub_bits(a: u64, b: u64) -> u64;

/// Bits of the IEEE-754 binary64 product of the values with bits `a` and
/// `b`, rounded to nearest, ties to even.
pub uninterp spec fn mul_bits(a: u64, b: u64) -> u64;

/// Bits of the IEEE-754 binary64 quotient of the values with bits `a` and
/// `b`, rounded to nearest, ties to even.
pub uninterp spec fn div_bits(a: u64, b: u64) -> u64;

/// Bits of the correctly rounded square root of the value with bits `a`.
pub uninterp spec fn sqrt_bits(a: u64) -> u64;

/// Bits of the natural exponential of the value with bits `a`.
pub uninterp spec fn exp_bits(a: u64) -> u64;

/// Relies on `rustc_apfloat::ieee::Double`'s `Add` (IEEE-754 binary64
/// addition, round to nearest, ties to even). The extra clause is the
/// IEEE-754 rule that the sum of two positive zeros is positive zero.
#[verifier::external_body]
pub(crate) fn fp_add(a: u64, b: u64) -> (r: u64)
    ensures
        r == add_bits(a, b),
        a == POS_ZERO && b == POS_ZERO ==> r == POS_ZERO,
{
    (Double::from_bits(a as u128) + Double::from_bits(b as u128)).value.to_bits() as u64
}

/// Relies on `rustc_apfloat::ieee::Double`'s `Sub` (IEEE-754 binary64
/// subtraction, round to nearest, ties to even). The extra clauses are
/// IEEE-754 rules: a difference of finite operands is never NaN; `x - +0.0`
/// returns `x` for non-NaN `x`; `x - x` is +0.0 for finite `x`;
/// round-to-nearest is symmetric under negation, so the swapped difference
/// of a non-NaN, nonzero result is its negation; and when finite operands
/// subtract to a zero, the swapped difference is also a zero (whose sign
/// may differ: `(+0.0) - (-0.0)` is +0.0 but `(-0.0) - (+0.0)` is -0.0).
#[verifier::external_body]
pub(crate) fn fp_sub(a: u64, b: u64) -> (r: u64)
    ensures
        r == sub_bits(a, b),
        is_finite_bits(a) && is_finite_bits(b) ==> !is_nan_bits(r),
        !is_nan_bits(a) && b == POS_ZERO ==> r == a,
        a == b && is_finite_bits(a) ==> r == POS_ZERO,
        !is_nan_bits(r) && !is_zero_bits(r) ==> sub_bits(b, a) == r ^ SIGN_MASK,
        is_zero_bits(r) && is_finite_bits(a) && is_finite_bits(b) ==> is_zero_bits(sub_bits(b, a)),
{
    (Double::from_bits(a as u128) - Double::from_bits(b as u128)).value.to_bits() as u64
}

/// Relies on `rustc_apfloat::ieee::Double`'s `Mul` (IEEE-754 binary64
/// multiplication, round to nearest, ties to even). The extra clauses are
/// IEEE-754 rules: negating both non-NaN factors leaves the product's bits
/// unchanged; a finite value times a zero is the zero whose sign is the
/// exclusive or of the operand signs; multiplying a non-NaN value by 1.0
/// returns it unchanged; and a finite nonzero value times +infinity is the
/// infinity carrying that value's sign.
#[verifier::external_body]
pub(crate) fn fp_mul(a: u64, b: u64) -> (r: u64)
    ensures
        r == mul_bits(a, b),
        !is_nan_bits(a) && !is_nan_bits(b) ==> mul_bits(a ^ SIGN_MASK, b ^ SIGN_MASK) == r,
        is_finite_bits(a) && is_zero_bits(b) ==> r == (if sign_bit(a) != sign_bit(b) { NEG_ZERO } else { POS_ZERO }),
        !is_nan_bits(a) && b == ONE_BITS ==> r == a,
        is_finite_bits(a) && !is_zero_bits(a) && b == POS_INF_BITS ==> r == (if sign_bit(a) { NEG_INF_BITS } else { POS_INF_BITS }),
{
    (Double::from_bits(a as u128) * Double::from_bits(b as u128)).value.to_bits() as u64
}

/// Relies on `rustc_apfloat::ieee::Double`'s `Div` (IEEE-754 binary64
/// division, round to nearest, ties to even). The extra clauses are
/// IEEE-754 rules: a zero divided by a finite nonzero value is the zero
/// whose sign is the exclusive or of the operand signs, and -infinity
/// divided by a positive finite value is -infinity.
#[verifier::external_body]
pub(crate) fn fp_div(a: u64, b: u64) -> (r: u64)
    ensures
        r == div_bits(a, b),
        is_zero_bits(a) && is_finite_bits(b) && !is_zero_bits(b) ==> r == (if sign_bit(a) != sign_bit(b) { NEG_ZERO } else { POS_ZERO }),
        a == NEG_INF_BITS && gt_zero_bits(b) && is_finite_bits(b) ==> r == NEG_INF_BITS,
{
    (Double::from_bits(a as u128) / Double::from_bits(b as u128)).value.to_bits() as u64
}

/// Relies on `libm::sqrt` (IEEE-754 requires square root to be correctly
/// rounded, so the result bits depend on the argument bits alone). The
/// extra clause is the IEEE-754 rule that the square root of +0.0 is +0.0.
#[verifier::external_body]
pub(crate) fn fp_sqrt(a: u64) -> (r: u64)
    ensures
        r == sqrt_bits(a),
        a == POS_ZERO ==> r == POS_ZERO,
{
    bytemuck::cast(libm::sqrt(bytemuck::cast(a)))
}

/// Relies on `libm::exp`, a pure function of the argument bits. The extra
/// clauses are behaviors its source states directly: `exp(+-0.0)` is
/// exactly 1.0 and `exp(-infinity)` is +0.0.
#[verifier::external_body]
pub(crate) fn fp_exp(a: u64) -> (r: u64)
    ensures
        r == exp_bits(a),
        is_zero_bits(a) ==> r == ONE_BITS,
        a == NEG_INF_BITS ==> r == POS_ZERO,
{
    bytemuck::cast(libm::exp(bytemuck::cast(a)))
}

} // verus!
