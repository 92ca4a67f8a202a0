//! The angle value type and its unit-aware operations.
//!
//! An [`Angle`] is a binary64 payload tagged with its unit.  Degree-tagged
//! operands take exact-payload fast paths in addition, subtraction and
//! equality; every other combination works on the radian conversions.

use crate::arith::{
    add_bits, div_bits, f64_add, f64_div, f64_mul, f64_rem, f64_sub, mul_bits, rem_bits, sub_bits,
};
use crate::bits::{
    eq_bits, ext_val, f64_abs, f64_eq, f64_is_zero, f64_le, f64_lt, f64_min, is_nan_bits, le_bits,
    lt_bits, min_bits, MAG_MASK, SIGN_MASK, ZERO_BITS,
};
use vstd::prelude::*;

verus! {

/// The payload pattern of the binary64 value nearest to pi.
pub const PI_BITS: u64 = 0x400921FB54442D18;

/// The payload pattern of twice [`PI_BITS`]: the radian period.
pub const TWO_PI_BITS: u64 = 0x401921FB54442D18;

/// The payload pattern of 45.
pub const D45_BITS: u64 = 0x4046_8000_0000_0000;

/// The payload pattern of 90.
pub const D90_BITS: u64 = 0x4056_8000_0000_0000;

/// The payload pattern of 180.
pub const D180_BITS: u64 = 0x4066_8000_0000_0000;

/// The payload pattern of 360: the degree period.
pub const D360_BITS: u64 = 0x4076_8000_0000_0000;

/// An angle.
///
/// Might be a value in degrees or in radians.  The payload is the bit
/// pattern of a binary64 number.
#[derive(Clone, Copy, Debug)]
pub enum Angle {
    Radians(u64),
    Degrees(u64),
}

/// Whether a payload lies in `[0, upper)` under binary64 comparison.
pub open spec fn in_unit_range(v: u64, upper: u64) -> bool {
    le_bits(ZERO_BITS, v) && lt_bits(v, upper)
}

/// A payload mapped into `[0, upper)`: kept when already there, otherwise
/// its remainder by `upper`, pushed up by one period when negative.
pub open spec fn norm_payload(v: u64, upper: u64) -> u64 {
    if in_unit_range(v, upper) {
        v
    } else {
        let m = rem_bits(v, upper);
        if le_bits(ZERO_BITS, m) {
            m
        } else {
            add_bits(m, upper)
        }
    }
}

impl Angle {
    /// The raw payload pattern, whatever the unit tag.
    pub open spec fn payload(self) -> u64 {
        match self {
            Angle::Radians(v) => v,
            Angle::Degrees(v) => v,
        }
    }

    /// The period payload of this angle's unit: 360 for degrees, two pi for
    /// radians.
    pub open spec fn upper_bits(self) -> u64 {
        match self {
            Angle::Radians(_) => TWO_PI_BITS,
            Angle::Degrees(_) => D360_BITS,
        }
    }

    /// The payload of this angle expressed in radians: kept for a radian
    /// tag, otherwise divided by 180 and multiplied by pi.
    pub open spec fn spec_in_radians(self) -> u64 {
        match self {
            Angle::Radians(v) => v,
            Angle::Degrees(v) => mul_bits(div_bits(v, D180_BITS), PI_BITS),
        }
    }

    /// The payload of this angle expressed in degrees: kept for a degree
    /// tag, otherwise divided by pi and multiplied by 180.
    pub open spec fn spec_in_degrees(self) -> u64 {
        match self {
            Angle::Radians(v) => mul_bits(div_bits(v, PI_BITS), D180_BITS),
            Angle::Degrees(v) => v,
        }
    }

    /// Yield the value encoded in radians.
    pub fn in_radians(self) -> (r: u64)
        ensures
            r == self.spec_in_radians(),
    {
        match self {
            Angle::Radians(v) => v,
            Angle::Degrees(v) => f64_mul(f64_div(v, D180_BITS), PI_BITS),
        }
    }

    /// Yield the value encoded in degrees.
    pub fn in_degrees(self) -> (r: u64)
        ensures
            r == self.spec_in_degrees(),
    {
        match self {
            Angle::Radians(v) => f64_mul(f64_div(v, PI_BITS), D180_BITS),
            Angle::Degrees(v) => v,
        }
    }

    /// An angle of 45 degrees.
    pub fn eighth() -> (r: Angle)
        ensures
            r == Angle::Degrees(D45_BITS),
    {
        Angle::Degrees(D45_BITS)
    }

    /// An angle of 90 degrees (right angle).
    pub fn quarter() -> (r: Angle)
        ensures
            r == Angle::Degrees(D90_BITS),
    {
        Angle::Degrees(D90_BITS)
    }

    /// An angle of 180 degrees (straight).
    pub fn half() -> (r: Angle)
        ensures
            r == Angle::Degrees(D180_BITS),
    {
        Angle::Degrees(D180_BITS)
    }

    /// An angle of 360 degrees (perigon).
    pub fn full() -> (r: Angle)
        ensures
            r == Angle::Degrees(D360_BITS),
    {
        Angle::Degrees(D360_BITS)
    }

    /// This angle normalized, as a value: the unit tag kept, the payload
    /// mapped into `[0, 360)` degrees or `[0, two pi)` radians.
    pub open spec fn spec_normalized(self) -> Angle {
        match self {
            Angle::Radians(v) => Angle::Radians(norm_payload(v, TWO_PI_BITS)),
            Angle::Degrees(v) => Angle::Degrees(norm_payload(v, D360_BITS)),
        }
    }

    /// Create a new angle by normalizing the value into the range of one
    /// full turn starting at zero, in the angle's own unit.
    pub fn normalized(self) -> (r: Self)
        ensures
            r == self.spec_normalized(),
            (r is Degrees) == (self is Degrees),
    {
        let (v, upper): (u64, u64) = match self {
            Angle::Radians(v) => (v, TWO_PI_BITS),
            Angle::Degrees(v) => (v, D360_BITS),
        };
        let normalized: u64 = if f64_lt(v, upper) && f64_le(ZERO_BITS, v) {
            v
        } else {
            let m: u64 = f64_rem(v, upper);
            if f64_le(ZERO_BITS, m) {
                m
            } else {
                f64_add(m, upper)
            }
        };
        match self {
            Angle::Radians(_) => Angle::Radians(normalized),
            Angle::Degrees(_) => Angle::Degrees(normalized),
        }
    }

    /// The minimal distance of two angles, as a value: radian-tagged, the
    /// unsigned difference folded into half a turn.
    pub open spec fn spec_min_dist(self, other: Angle) -> Angle {
        let a = self.spec_in_radians();
        let b = other.spec_in_radians();
        let d = sub_bits(a, b) & MAG_MASK;
        if in_unit_range(a, TWO_PI_BITS) && in_unit_range(b, TWO_PI_BITS) {
            Angle::Radians(min_bits(d, sub_bits(TWO_PI_BITS, d)))
        } else {
            Angle::Radians(
                sub_bits(PI_BITS, sub_bits(rem_bits(d, TWO_PI_BITS), PI_BITS) & MAG_MASK),
            )
        }
    }

    /// Computes the minimal unsigned distance between two normalized angles,
    /// radian-tagged: `min(d, two pi - d)` for the unsigned difference `d`
    /// when both operands already lie in `[0, two pi)` radians, and
    /// `pi - |d mod two pi - pi|` otherwise.
    pub fn min_dist(self, other: Angle) -> (r: Angle)
        ensures
            r == self.spec_min_dist(other),
            r is Radians,
    {
        let a: u64 = self.in_radians();
        let b: u64 = other.in_radians();
        let d: u64 = f64_abs(f64_sub(a, b));
        if f64_le(ZERO_BITS, a) && f64_lt(a, TWO_PI_BITS) && f64_le(ZERO_BITS, b) && f64_lt(
            b,
            TWO_PI_BITS,
        ) {
            Angle::Radians(f64_min(d, f64_sub(TWO_PI_BITS, d)))
        } else {
            Angle::Radians(f64_sub(PI_BITS, f64_abs(f64_sub(f64_rem(d, TWO_PI_BITS), PI_BITS))))
        }
    }

    /// The absolute angle, as a value: the unit tag kept, the payload's sign
    /// bit cleared.
    pub open spec fn spec_abs(self) -> Angle {
        match self {
            Angle::Radians(v) => Angle::Radians(v & MAG_MASK),
            Angle::Degrees(v) => Angle::Degrees(v & MAG_MASK),
        }
    }

    /// Compute the absolute angle.
    pub fn abs(self) -> (r: Self)
        ensures
            r == self.spec_abs(),
            (r is Degrees) == (self is Degrees),
            !is_nan_bits(self.payload()) ==> ext_val(r.payload()) == (if ext_val(self.payload())
                < 0 {
                -ext_val(self.payload())
            } else {
                ext_val(self.payload())
            }),
    {
        match self {
            Angle::Radians(v) => Angle::Radians(f64_abs(v)),
            Angle::Degrees(v) => Angle::Degrees(f64_abs(v)),
        }
    }

    /// The negated angle, as a value: the unit tag kept, the payload's sign
    /// bit flipped.
    pub open spec fn spec_neg(self) -> Angle {
        match self {
            Angle::Radians(v) => Angle::Radians(v ^ SIGN_MASK),
            Angle::Degrees(v) => Angle::Degrees(v ^ SIGN_MASK),
        }
    }

    /// The negation of the angle, in its own unit.
    pub fn neg(self) -> (r: Self)
        ensures
            r == self.spec_neg(),
            (r is Degrees) == (self is Degrees),
            !is_nan_bits(self.payload()) ==> ext_val(r.payload()) == -ext_val(self.payload()),
    {
        match self {
            Angle::Radians(v) => Angle::Radians(crate::bits::f64_neg(v)),
            Angle::Degrees(v) => Angle::Degrees(crate::bits::f64_neg(v)),
        }
    }

    /// The radian-tagged zero angle.
    pub fn zero() -> (r: Self)
        ensures
            r == Angle::Radians(ZERO_BITS),
    {
        Angle::Radians(ZERO_BITS)
    }

    /// Whether the payload is a zero of either sign, whatever the unit.
    pub fn is_zero(&self) -> (r: bool)
        ensures
            r == eq_bits(self.payload(), ZERO_BITS),
    {
        match *self {
            Angle::Radians(v) => f64_is_zero(v),
            Angle::Degrees(v) => f64_is_zero(v),
        }
    }

    /// The sum of two angles, as a value: degree-tagged with the exact
    /// payload sum when both operands carry the degree tag, radian-tagged
    /// with the sum of the radian conversions otherwise.
    pub open spec fn spec_add(self, rhs: Angle) -> Angle {
        if self is Degrees && rhs is Degrees {
            Angle::Degrees(add_bits(self.payload(), rhs.payload()))
        } else {
            Angle::Radians(add_bits(self.spec_in_radians(), rhs.spec_in_radians()))
        }
    }

    /// The difference of two angles, under the same unit rule as the sum.
    pub open spec fn spec_sub(self, rhs: Angle) -> Angle {
        if self is Degrees && rhs is Degrees {
            Angle::Degrees(sub_bits(self.payload(), rhs.payload()))
        } else {
            Angle::Radians(sub_bits(self.spec_in_radians(), rhs.spec_in_radians()))
        }
    }

    /// Add two angles: exact degree arithmetic when both are degree-tagged,
    /// radian arithmetic otherwise.
    pub fn add(self, rhs: Angle) -> (r: Angle)
        ensures
            r == self.spec_add(rhs),
    {
        match (self, rhs) {
            (Angle::Degrees(a), Angle::Degrees(b)) => Angle::Degrees(f64_add(a, b)),
            _ => Angle::Radians(f64_add(self.in_radians(), rhs.in_radians())),
        }
    }

    /// Subtract two angles, under the same unit rule as the sum.
    pub fn sub(self, rhs: Angle) -> (r: Angle)
        ensures
            r == self.spec_sub(rhs),
    {
        match (self, rhs) {
            (Angle::Degrees(a), Angle::Degrees(b)) => Angle::Degrees(f64_sub(a, b)),
            _ => Angle::Radians(f64_sub(self.in_radians(), rhs.in_radians())),
        }
    }

    /// Add an angle in place; the result equals the non-assigning sum.
    pub fn add_assign(&mut self, rhs: Angle)
        ensures
            *final(self) == old(self).spec_add(rhs),
    {
        let s: Angle = *self;
        *self = s.add(rhs);
    }

    /// Subtract an angle in place; the result equals the non-assigning
    /// difference.
    pub fn sub_assign(&mut self, rhs: Angle)
        ensures
            *final(self) == old(self).spec_sub(rhs),
    {
        let s: Angle = *self;
        *self = s.sub(rhs);
    }

    /// The angle scaled by a payload factor, as a value: the unit tag kept,
    /// the payload multiplied.
    pub open spec fn spec_mul(self, rhs: u64) -> Angle {
        match self {
            Angle::Radians(v) => Angle::Radians(mul_bits(v, rhs)),
            Angle::Degrees(v) => Angle::Degrees(mul_bits(v, rhs)),
        }
    }

    /// The angle divided by a payload factor, as a value: the unit tag kept,
    /// the payload divided.
    pub open spec fn spec_div(self, rhs: u64) -> Angle {
        match self {
            Angle::Radians(v) => Angle::Radians(div_bits(v, rhs)),
            Angle::Degrees(v) => Angle::Degrees(div_bits(v, rhs)),
        }
    }

    /// Multiply the payload by a scalar, keeping the unit tag.
    pub fn mul(self, rhs: u64) -> (r: Angle)
        ensures
            r == self.spec_mul(rhs),
            (r is Degrees) == (self is Degrees),
    {
        match self {
            Angle::Radians(v) => Angle::Radians(f64_mul(v, rhs)),
            Angle::Degrees(v) => Angle::Degrees(f64_mul(v, rhs)),
        }
    }

    /// Divide the payload by a scalar, keeping the unit tag.
    pub fn div(self, rhs: u64) -> (r: Angle)
        ensures
            r == self.spec_div(rhs),
            (r is Degrees) == (self is Degrees),
    {
        match self {
            Angle::Radians(v) => Angle::Radians(f64_div(v, rhs)),
            Angle::Degrees(v) => Angle::Degrees(f64_div(v, rhs)),
        }
    }

    /// Multiply the payload by a scalar in place; the result equals the
    /// non-assigning product.
    pub fn mul_assign(&mut self, rhs: u64)
        ensures
            *final(self) == old(self).spec_mul(rhs),
    {
        let s: Angle = *self;
        *self = s.mul(rhs);
    }

    /// Divide the payload by a scalar in place; the result equals the
    /// non-assigning quotient.
    pub fn div_assign(&mut self, rhs: u64)
        ensures
            *final(self) == old(self).spec_div(rhs),
    {
        let s: Angle = *self;
        *self = s.div(rhs);
    }
}

/// A scalar times an angle: the unit tag kept, the scalar on the left of the
/// payload product.
pub fn scalar_mul(lhs: u64, rhs: Angle) -> (r: Angle)
    ensures
        r == (match rhs {
            Angle::Radians(v) => Angle::Radians(mul_bits(lhs, v)),
            Angle::Degrees(v) => Angle::Degrees(mul_bits(lhs, v)),
        }),
{
    match rhs {
        Angle::Radians(v) => Angle::Radians(f64_mul(lhs, v)),
        Angle::Degrees(v) => Angle::Degrees(f64_mul(lhs, v)),
    }
}

/// A scalar divided by an angle: the unit tag kept, the scalar as the
/// dividend over the payload.
pub fn scalar_div(lhs: u64, rhs: Angle) -> (r: Angle)
    ensures
        r == (match rhs {
            Angle::Radians(v) => Angle::Radians(div_bits(lhs, v)),
            Angle::Degrees(v) => Angle::Degrees(div_bits(lhs, v)),
        }),
{
    match rhs {
        Angle::Radians(v) => Angle::Radians(f64_div(lhs, v)),
        Angle::Degrees(v) => Angle::Degrees(f64_div(lhs, v)),
    }
}

/// How two angles compare equal: by exact payload when both carry the degree
/// tag, by the radian conversions otherwise.  A NaN payload compares unequal
/// to everything; the two zero patterns are equal.
pub open spec fn spec_angle_eq(a: Angle, b: Angle) -> bool {
    if a is Degrees && b is Degrees {
        eq_bits(a.payload(), b.payload())
    } else {
        eq_bits(a.spec_in_radians(), b.spec_in_radians())
    }
}

impl PartialEq for Angle {
    fn eq(&self, other: &Angle) -> (r: bool) {
        match (*self, *other) {
            (Angle::Degrees(a), Angle::Degrees(b)) => f64_eq(a, b),
            _ => f64_eq(self.in_radians(), other.in_radians()),
        }
    }
}

impl vstd::std_specs::cmp::PartialEqSpecImpl for Angle {
    open spec fn obeys_eq_spec() -> bool {
        true
    }

    open spec fn eq_spec(&self, other: &Angle) -> bool {
        spec_angle_eq(*self, *other)
    }
}

} // verus!
