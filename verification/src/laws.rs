//! The unit laws of the angle operations, stated once over the operation
//! contracts and proved.

use crate::angle::{in_unit_range, Angle};
use crate::arith::{add_bits, div_bits, mul_bits, sub_bits};
use vstd::prelude::*;

verus! {

/// Normalizing an angle whose payload already lies in `[0, one turn)` of its
/// own unit returns the very same angle.
pub proof fn lemma_normalized_in_range_identity(a: Angle)
    requires
        in_unit_range(a.payload(), a.upper_bits()),
    ensures
        a.spec_normalized() == a,
{
}

/// The additive operator rule, degree half: two degree-tagged angles add to
/// a degree-tagged angle whose degree expression is the payload sum itself,
/// with no unit conversion.
pub proof fn lemma_add_degrees_exact(x: u64, y: u64)
    ensures
        Angle::Degrees(x).spec_add(Angle::Degrees(y)) is Degrees,
        Angle::Degrees(x).spec_add(Angle::Degrees(y)).spec_in_degrees() == add_bits(x, y),
{
}

/// The additive operator rule, radian half: every other combination —
/// radians with radians included — adds to a radian-tagged angle whose
/// radian expression is the sum of the operands' radian expressions.
pub proof fn lemma_add_radians_rule(a: Angle, b: Angle)
    requires
        !(a is Degrees && b is Degrees),
    ensures
        a.spec_add(b) is Radians,
        a.spec_add(b).spec_in_radians() == add_bits(a.spec_in_radians(), b.spec_in_radians()),
{
}

/// The subtractive counterpart of the degree half: exact payload difference,
/// degree tag kept.
pub proof fn lemma_sub_degrees_exact(x: u64, y: u64)
    ensures
        Angle::Degrees(x).spec_sub(Angle::Degrees(y)) is Degrees,
        Angle::Degrees(x).spec_sub(Angle::Degrees(y)).spec_in_degrees() == sub_bits(x, y),
{
}

/// The subtractive counterpart of the radian half.
pub proof fn lemma_sub_radians_rule(a: Angle, b: Angle)
    requires
        !(a is Degrees && b is Degrees),
    ensures
        a.spec_sub(b) is Radians,
        a.spec_sub(b).spec_in_radians() == sub_bits(a.spec_in_radians(), b.spec_in_radians()),
{
}

/// Scalar multiplication and division keep the unit tag and act on the
/// payload alone, read in the angle's own unit.
pub proof fn lemma_scale_in_own_unit(a: Angle, x: u64)
    ensures
        (a.spec_mul(x) is Degrees) == (a is Degrees),
        (a.spec_div(x) is Degrees) == (a is Degrees),
        a is Degrees ==> a.spec_mul(x).spec_in_degrees() == mul_bits(a.payload(), x),
        a is Radians ==> a.spec_mul(x).spec_in_radians() == mul_bits(a.payload(), x),
        a is Degrees ==> a.spec_div(x).spec_in_degrees() == div_bits(a.payload(), x),
        a is Radians ==> a.spec_div(x).spec_in_radians() == div_bits(a.payload(), x),
{
}

} // verus!
