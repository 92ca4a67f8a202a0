//! Trusted wrappers for binary64 rounding arithmetic.
//!
//! The rounding operations on angle payloads — addition, subtraction,
//! multiplication, division, remainder, and the conversion of a count to a
//! payload — are performed by `rustc_apfloat`'s `Double`, a software
//! implementation of IEEE 754 binary64 with round-to-nearest-even, working
//! directly on bit patterns.  Each result is a pure function of the operand
//! patterns alone; an uninterpreted spec function names it, and every
//! contract of this crate speaks of those names.

use rustc_apfloat::Float;
use vstd::prelude::*;

verus! {

/// The pattern that binary64 addition returns for two operand patterns.
pub uninterp spec fn add_bits(a: u64, b: u64) -> u64;

/// The pattern that binary64 subtraction returns for two operand patterns.
pub uninterp spec fn sub_bits(a: u64, b: u64) -> u64;

/// The pattern that binary64 multiplication returns for two operand patterns.
pub uninterp spec fn mul_bits(a: u64, b: u64) -> u64;

/// The pattern that binary64 division returns for two operand patterns.
pub uninterp spec fn div_bits(a: u64, b: u64) -> u64;

/// The pattern that the binary64 remainder (C `fmod`: the sign of the
/// dividend, a magnitude below the divisor's) returns for two operand
/// patterns.
pub uninterp spec fn rem_bits(a: u64, b: u64) -> u64;

/// The pattern of the binary64 value nearest to a count.
pub uninterp spec fn count_bits(n: usize) -> u64;

/// Relies on `rustc_apfloat::ieee::Double`: `+` is IEEE 754 binary64
/// addition, round to nearest even, a pure function of the operand patterns.
#[verifier::external_body]
pub(crate) fn f64_add(a: u64, b: u64) -> (r: u64)
    ensures
        r == add_bits(a, b),
{
    let x = rustc_apfloat::ieee::Double::from_bits(a as u128);
    let y = rustc_apfloat::ieee::Double::from_bits(b as u128);
    (x + y).value.to_bits() as u64
}

/// Relies on `rustc_apfloat::ieee::Double`: `-` is IEEE 754 binary64
/// subtraction, round to nearest even, a pure function of the operand
/// patterns.
#[verifier::external_body]
pub(crate) fn f64_sub(a: u64, b: u64) -> (r: u64)
    ensures
        r == sub_bits(a, b),
{
    let x = rustc_apfloat::ieee::Double::from_bits(a as u128);
    let y = rustc_apfloat::ieee::Double::from_bits(b as u128);
    (x - y).value.to_bits() as u64
}

/// Relies on `rustc_apfloat::ieee::Double`: `*` is IEEE 754 binary64
/// multiplication, round to nearest even, a pure function of the operand
/// patterns.
#[verifier::external_body]
pub(crate) fn f64_mul(a: u64, b: u64) -> (r: u64)
    ensures
        r == mul_bits(a, b),
{
    let x = rustc_apfloat::ieee::Double::from_bits(a as u128);
    let y = rustc_apfloat::ieee::Double::from_bits(b as u128);
    (x * y).value.to_bits() as u64
}

/// Relies on `rustc_apfloat::ieee::Double`: `/` is IEEE 754 binary64
/// division, round to nearest even, a pure function of the operand patterns.
#[verifier::external_body]
pub(crate) fn f64_div(a: u64, b: u64) -> (r: u64)
    ensures
        r == div_bits(a, b),
{
    let x = rustc_apfloat::ieee::Double::from_bits(a as u128);
    let y = rustc_apfloat::ieee::Double::from_bits(b as u128);
    (x / y).value.to_bits() as u64
}

/// Relies on `rustc_apfloat::ieee::Double`: `%` is `c_fmod`, the C `fmod`
/// remainder of binary64, a pure function of the operand patterns.
#[verifier::external_body]
pub(crate) fn f64_rem(a: u64, b: u64) -> (r: u64)
    ensures
        r == rem_bits(a, b),
{
    let x = rustc_apfloat::ieee::Double::from_bits(a as u128);
    let y = rustc_apfloat::ieee::Double::from_bits(b as u128);
    (x % y).value.to_bits() as u64
}

/// Relies on `rustc_apfloat::ieee::Double::from_u128`: the binary64 value
/// nearest to an unsigned count, round to nearest even, a pure function of
/// the count.
#[verifier::external_body]
pub(crate) fn f64_from_usize(n: usize) -> (r: u64)
    ensures
        r == count_bits(n),
{
    rustc_apfloat::ieee::Double::from_u128(n as u128).value.to_bits() as u64
}

} // verus!
