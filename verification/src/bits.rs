//! IEEE 754 binary64 bit patterns, held as `u64` values.
//!
//! An angle payload in this crate is the bit pattern of a binary64 number.
//! The operations here — classification, comparison, absolute value,
//! negation, the value minimum — are pure functions of the bit pattern and
//! are implemented and verified as plain integer code.  The model is
//! `ext_val`: the signed value of a pattern scaled by `2^1074`, which makes
//! every finite binary64 value an integer, with the infinities placed beyond
//! every finite magnitude.

use vstd::arithmetic::mul::{lemma_mul_inequality, lemma_mul_strict_inequality};
use vstd::arithmetic::power2::{
    lemma2_to64, lemma2_to64_rest, lemma_pow2_adds, lemma_pow2_pos, lemma_pow2_strictly_increases,
    pow2,
};
use vstd::prelude::*;

verus! {

/// Mask of the sign bit of a binary64 pattern.
pub const SIGN_MASK: u64 = 0x8000_0000_0000_0000;

/// Mask of everything but the sign bit: biased exponent and fraction.
pub const MAG_MASK: u64 = 0x7fff_ffff_ffff_ffff;

/// Mask of the 52 fraction bits.
pub const FRAC_MASK: u64 = 0x000f_ffff_ffff_ffff;

/// The weight of the hidden significand bit, `2^52`.
pub const HIDDEN_BIT: u64 = 0x0010_0000_0000_0000;

/// The bit pattern of positive zero.
pub const ZERO_BITS: u64 = 0x0000_0000_0000_0000;

/// The sign bit of a pattern: 0 or 1.
pub open spec fn sign_of(b: u64) -> nat {
    (b >> 63) as nat
}

/// The 11-bit biased exponent field of a pattern.
pub open spec fn biased_exp(b: u64) -> nat {
    ((b >> 52) & 0x7ff) as nat
}

/// The 52-bit fraction field of a pattern.
pub open spec fn frac_of(b: u64) -> nat {
    (b & FRAC_MASK) as nat
}

/// The pattern with the sign bit cleared, read as an integer: the biased
/// exponent and the fraction together.
pub open spec fn mag_of(b: u64) -> nat {
    (b & MAG_MASK) as nat
}

/// The pattern encodes a NaN: exponent field all ones, fraction nonzero.
pub open spec fn is_nan_bits(b: u64) -> bool {
    biased_exp(b) == 0x7ff && frac_of(b) != 0
}

/// The pattern encodes a finite number (zero, subnormal or normal).
pub open spec fn is_finite_bits(b: u64) -> bool {
    biased_exp(b) < 0x7ff
}

/// The integer significand of a finite pattern, hidden bit included.
pub open spec fn significand_of(b: u64) -> nat {
    if biased_exp(b) == 0 {
        frac_of(b)
    } else {
        (frac_of(b) + HIDDEN_BIT) as nat
    }
}

/// The exponent of the weight of `significand_of` once a finite value is
/// scaled by `2^1074`: a subnormal pattern has weight `2^0`, a normal one
/// with biased exponent `e` has weight `2^(e-1)`.
pub open spec fn scale_exp(b: u64) -> nat {
    if biased_exp(b) == 0 {
        0
    } else {
        (biased_exp(b) - 1) as nat
    }
}

/// The absolute value of a non-NaN pattern, scaled by `2^1074` so that it is
/// a natural number.  An infinity is mapped to `2^2200`, which lies above
/// every finite magnitude (those are below `2^2099`).
pub open spec fn magnitude_scaled(b: u64) -> nat {
    if is_finite_bits(b) {
        significand_of(b) * pow2(scale_exp(b))
    } else {
        pow2(2200)
    }
}

/// The signed value of a non-NaN pattern, scaled by `2^1074`.
pub open spec fn ext_val(b: u64) -> int
    recommends
        !is_nan_bits(b),
{
    if sign_of(b) == 1 {
        -(magnitude_scaled(b) as int)
    } else {
        magnitude_scaled(b) as int
    }
}

/// IEEE equality of two patterns: false when either is NaN; positive and
/// negative zero are equal.
pub open spec fn eq_bits(a: u64, b: u64) -> bool {
    !is_nan_bits(a) && !is_nan_bits(b) && ext_val(a) == ext_val(b)
}

/// IEEE `<` of two patterns: false when either is NaN.
pub open spec fn lt_bits(a: u64, b: u64) -> bool {
    !is_nan_bits(a) && !is_nan_bits(b) && ext_val(a) < ext_val(b)
}

/// IEEE `<=` of two patterns: false when either is NaN.
pub open spec fn le_bits(a: u64, b: u64) -> bool {
    !is_nan_bits(a) && !is_nan_bits(b) && ext_val(a) <= ext_val(b)
}

/// How the three fields of a pattern compose its sign-cleared integer form,
/// and their ranges.
proof fn lemma_fields(b: u64)
    ensures
        mag_of(b) == biased_exp(b) * 0x0010_0000_0000_0000 + frac_of(b),
        frac_of(b) < 0x0010_0000_0000_0000,
        biased_exp(b) <= 0x7ff,
        sign_of(b) <= 1,
{
    assert((b & 0x7fff_ffff_ffff_ffff) == ((b >> 52) & 0x7ff) * 0x0010_0000_0000_0000 + (
    b & 0x000f_ffff_ffff_ffff)) by (bit_vector);
    assert((b & 0x000f_ffff_ffff_ffff) < 0x0010_0000_0000_0000) by (bit_vector);
    assert(((b >> 52) & 0x7ff) <= 0x7ff) by (bit_vector);
    assert((b >> 63) <= 1) by (bit_vector);
}

/// A pattern whose fields order lexicographically below another's (exponent
/// first, then fraction) has the strictly smaller scaled magnitude.
proof fn lemma_lex_lt(a: u64, b: u64)
    requires
        !is_nan_bits(a),
        !is_nan_bits(b),
        biased_exp(a) < biased_exp(b) || (biased_exp(a) == biased_exp(b) && frac_of(a) < frac_of(
        b)),
    ensures
        magnitude_scaled(a) < magnitude_scaled(b),
{
    lemma_fields(a);
    lemma_fields(b);
    lemma2_to64();
    lemma2_to64_rest();
    lemma_pow2_pos(scale_exp(a));
    lemma_pow2_pos(scale_exp(b));
    assert(significand_of(a) < pow2(53));
    if !is_finite_bits(b) {
        // `b` is an infinity, so `a` is finite: equal exponent fields would
        // force `frac_of(a) < frac_of(b) == 0`.
        assert(is_finite_bits(a));
        // every finite magnitude lies below 2^2099
        lemma_mul_strict_inequality(
            significand_of(a) as int,
            pow2(53) as int,
            pow2(scale_exp(a)) as int,
        );
        lemma_pow2_adds(53, scale_exp(a));
        lemma_pow2_strictly_increases(53 + scale_exp(a), 2200);
    } else {
        assert(is_finite_bits(a));
        if biased_exp(a) == biased_exp(b) {
            lemma_mul_strict_inequality(
                significand_of(a) as int,
                significand_of(b) as int,
                pow2(scale_exp(a)) as int,
            );
        } else if biased_exp(a) == 0 && biased_exp(b) == 1 {
            // a subnormal against the smallest normal binade: both have
            // weight 2^0 and the significands are ordered
            assert(magnitude_scaled(a) == significand_of(a) * 1);
            assert(magnitude_scaled(b) == significand_of(b) * 1);
        } else {
            // the binades are disjoint: everything in a's lies below
            // everything in b's
            let sa = scale_exp(a);
            let sb = scale_exp(b);
            assert(53 + sa <= 52 + sb);
            lemma_mul_strict_inequality(significand_of(a) as int, pow2(53) as int, pow2(sa) as int);
            lemma_pow2_adds(53, sa);
            if 53 + sa < 52 + sb {
                lemma_pow2_strictly_increases(53 + sa, 52 + sb);
            }
            lemma_pow2_adds(52, sb);
            lemma_mul_inequality(pow2(52) as int, significand_of(b) as int, pow2(sb) as int);
        }
    }
}

/// The sign-cleared integer form of a pattern orders exactly as the scaled
/// magnitude does.
pub proof fn lemma_mag_orders(a: u64, b: u64)
    requires
        !is_nan_bits(a),
        !is_nan_bits(b),
    ensures
        (mag_of(a) < mag_of(b)) <==> (magnitude_scaled(a) < magnitude_scaled(b)),
        (mag_of(a) == mag_of(b)) <==> (magnitude_scaled(a) == magnitude_scaled(b)),
{
    lemma_fields(a);
    lemma_fields(b);
    if biased_exp(a) < biased_exp(b) || (biased_exp(a) == biased_exp(b) && frac_of(a) < frac_of(
    b)) {
        lemma_lex_lt(a, b);
        assert(mag_of(a) < mag_of(b));
    } else if biased_exp(b) < biased_exp(a) || (biased_exp(a) == biased_exp(b) && frac_of(b)
        < frac_of(a)) {
        lemma_lex_lt(b, a);
        assert(mag_of(b) < mag_of(a));
    } else {
        assert(biased_exp(a) == biased_exp(b) && frac_of(a) == frac_of(b));
    }
}

/// A non-NaN pattern has scaled magnitude zero exactly when its sign-cleared
/// form is zero: the two zero patterns are the only ones of value zero.
pub proof fn lemma_mag_zero(b: u64)
    requires
        !is_nan_bits(b),
    ensures
        (mag_of(b) == 0) <==> (magnitude_scaled(b) == 0),
{
    lemma_zero_pattern();
    assert(magnitude_scaled(ZERO_BITS) == 0);
    lemma_mag_orders(b, ZERO_BITS);
}

/// The positive zero pattern is not a NaN and has value zero.
pub proof fn lemma_zero_pattern()
    ensures
        !is_nan_bits(ZERO_BITS),
        mag_of(ZERO_BITS) == 0,
        ext_val(ZERO_BITS) == 0,
{
    assert(((0u64 >> 52) & 0x7ff) == 0 && (0u64 & 0x000f_ffff_ffff_ffff) == 0 && (0u64
        & 0x7fff_ffff_ffff_ffff) == 0 && (0u64 >> 63) == 0) by (bit_vector);
    assert(biased_exp(ZERO_BITS) == 0 && frac_of(ZERO_BITS) == 0);
    assert(significand_of(ZERO_BITS) == 0);
    assert(magnitude_scaled(ZERO_BITS) == 0);
}

/// Clearing the sign bit keeps the exponent and fraction fields.
proof fn lemma_clear_sign_fields(b: u64)
    ensures
        sign_of(b & MAG_MASK) == 0,
        biased_exp(b & MAG_MASK) == biased_exp(b),
        frac_of(b & MAG_MASK) == frac_of(b),
{
    assert(((b & 0x7fff_ffff_ffff_ffff) >> 63) == 0) by (bit_vector);
    assert((((b & 0x7fff_ffff_ffff_ffff) >> 52) & 0x7ff) == ((b >> 52) & 0x7ff)) by (bit_vector);
    assert(((b & 0x7fff_ffff_ffff_ffff) & 0x000f_ffff_ffff_ffff) == (b & 0x000f_ffff_ffff_ffff))
        by (bit_vector);
}

/// Flipping the sign bit flips the sign field and keeps the exponent and
/// fraction fields.
proof fn lemma_flip_sign_fields(b: u64)
    ensures
        sign_of(b ^ SIGN_MASK) == 1 - sign_of(b),
        biased_exp(b ^ SIGN_MASK) == biased_exp(b),
        frac_of(b ^ SIGN_MASK) == frac_of(b),
{
    assert((b >> 63) <= 1) by (bit_vector);
    assert((b >> 63) == 0 ==> ((b ^ 0x8000_0000_0000_0000) >> 63) == 1) by (bit_vector);
    assert((b >> 63) == 1 ==> ((b ^ 0x8000_0000_0000_0000) >> 63) == 0) by (bit_vector);
    assert((((b ^ 0x8000_0000_0000_0000) >> 52) & 0x7ff) == ((b >> 52) & 0x7ff)) by (bit_vector);
    assert(((b ^ 0x8000_0000_0000_0000) & 0x000f_ffff_ffff_ffff) == (b & 0x000f_ffff_ffff_ffff))
        by (bit_vector);
}

/// IEEE absolute value: the pattern with the sign bit cleared.  On a NaN it
/// clears the sign bit too, and the result is still a NaN.
pub fn f64_abs(b: u64) -> (r: u64)
    ensures
        r == (b & MAG_MASK),
        is_nan_bits(r) == is_nan_bits(b),
        !is_nan_bits(b) ==> ext_val(r) == (if ext_val(b) < 0 {
            -ext_val(b)
        } else {
            ext_val(b)
        }),
{
    proof {
        lemma_clear_sign_fields(b);
        assert(magnitude_scaled(b & MAG_MASK) == magnitude_scaled(b));
    }
    b & MAG_MASK
}

/// IEEE negation: the pattern with the sign bit flipped.  On a NaN it flips
/// the sign bit too, and the result is still a NaN.
pub fn f64_neg(b: u64) -> (r: u64)
    ensures
        r == (b ^ SIGN_MASK),
        is_nan_bits(r) == is_nan_bits(b),
        !is_nan_bits(b) ==> ext_val(r) == -ext_val(b),
{
    proof {
        lemma_flip_sign_fields(b);
        assert(magnitude_scaled(b ^ SIGN_MASK) == magnitude_scaled(b));
    }
    b ^ SIGN_MASK
}

/// The value minimum of two patterns, as this crate takes it: a NaN operand
/// yields the other operand; of two ordered operands the smaller is returned,
/// and the first operand is returned when neither is smaller.
pub open spec fn min_bits(a: u64, b: u64) -> u64 {
    if is_nan_bits(a) {
        b
    } else if is_nan_bits(b) {
        a
    } else if lt_bits(b, a) {
        b
    } else {
        a
    }
}

/// The value minimum of two patterns.
pub fn f64_min(a: u64, b: u64) -> (r: u64)
    ensures
        r == min_bits(a, b),
{
    if f64_is_nan(a) {
        b
    } else if f64_is_nan(b) {
        a
    } else if f64_lt(b, a) {
        b
    } else {
        a
    }
}

/// Whether a pattern encodes a zero (of either sign).
pub fn f64_is_zero(b: u64) -> (r: bool)
    ensures
        r == eq_bits(b, ZERO_BITS),
{
    proof {
        lemma_zero_pattern();
        if !is_nan_bits(b) {
            lemma_mag_zero(b);
        } else {
            lemma_fields(b);
        }
    }
    (b & MAG_MASK) == 0
}

/// Whether a pattern is a NaN.
pub fn f64_is_nan(b: u64) -> (r: bool)
    ensures
        r == is_nan_bits(b),
{
    ((b >> 52) & 0x7ff) == 0x7ff && (b & FRAC_MASK) != 0
}

/// IEEE `<` on two patterns: false when either is NaN, and the two zero
/// patterns are equal.
pub fn f64_lt(a: u64, b: u64) -> (r: bool)
    ensures
        r == lt_bits(a, b),
{
    if f64_is_nan(a) || f64_is_nan(b) {
        return false;
    }
    proof {
        lemma_fields(a);
        lemma_fields(b);
        lemma_mag_orders(a, b);
        lemma_mag_zero(a);
        lemma_mag_zero(b);
    }
    let sa: u64 = a >> 63;
    let sb: u64 = b >> 63;
    let ma: u64 = a & MAG_MASK;
    let mb: u64 = b & MAG_MASK;
    if sa == 0 && sb == 0 {
        ma < mb
    } else if sa == 1 && sb == 1 {
        mb < ma
    } else if sa == 1 {
        // a is negative or negative zero, b is positive or positive zero
        !(ma == 0 && mb == 0)
    } else {
        false
    }
}

/// IEEE `<=` on two patterns: false when either is NaN.
pub fn f64_le(a: u64, b: u64) -> (r: bool)
    ensures
        r == le_bits(a, b),
{
    if f64_is_nan(a) || f64_is_nan(b) {
        false
    } else {
        !f64_lt(b, a)
    }
}

/// IEEE `==` on two patterns: false when either is NaN; positive and
/// negative zero are equal.
pub fn f64_eq(a: u64, b: u64) -> (r: bool)
    ensures
        r == eq_bits(a, b),
{
    if f64_is_nan(a) || f64_is_nan(b) {
        return false;
    }
    proof {
        lemma_fields(a);
        lemma_fields(b);
        lemma_mag_orders(a, b);
        lemma_mag_zero(a);
        lemma_mag_zero(b);
    }
    let sa: u64 = a >> 63;
    let sb: u64 = b >> 63;
    let ma: u64 = a & MAG_MASK;
    let mb: u64 = b & MAG_MASK;
    if sa == sb {
        ma == mb
    } else {
        ma == 0 && mb == 0
    }
}

} // verus!
