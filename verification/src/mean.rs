//! The verified pieces of the circular mean, and the domain guard shared by
//! the arcsine and arccosine constructors.
//!
//! The trigonometric calls themselves (sine, cosine, the arc functions)
//! cannot stand in this crate; callers hand in their result payloads.  What
//! is verified here is everything around them: the accumulation of the
//! Cartesian components and the not-a-number guard.

use crate::angle::Angle;
use crate::arith::{add_bits, count_bits, div_bits, f64_add, f64_div, f64_from_usize};
use crate::bits::{f64_is_nan, is_nan_bits, ZERO_BITS};
use vstd::prelude::*;

verus! {

/// A radian-tagged angle from an arc-function result payload: absent exactly
/// when the payload is a NaN, as an arcsine or arccosine of an input outside
/// `[-1, 1]` is.
pub fn radians_unless_nan(b: u64) -> (r: Option<Angle>)
    ensures
        (r is Some) <==> !is_nan_bits(b),
        !is_nan_bits(b) ==> r == Some(Angle::Radians(b)),
{
    if f64_is_nan(b) {
        None
    } else {
        Some(Angle::Radians(b))
    }
}

/// The left fold of binary64 addition over a sequence of payloads, starting
/// from positive zero.
pub open spec fn sum_bits(s: Seq<u64>) -> u64
    decreases s.len(),
{
    if s.len() == 0 {
        ZERO_BITS
    } else {
        add_bits(sum_bits(s.drop_last()), s.last())
    }
}

/// The Cartesian mean components of a family of angles, from their per-angle
/// (sine, cosine) payload pairs: the sine sum over the count first, the
/// cosine sum over the count second.  An empty family divides zero by zero,
/// the silent NaN the circular mean propagates.
pub fn circular_mean_ratios(pairs: &Vec<(u64, u64)>) -> (r: (u64, u64))
    ensures
        r.0 == div_bits(
            sum_bits(pairs@.map_values(|p: (u64, u64)| p.0)),
            count_bits(pairs@.len() as usize),
        ),
        r.1 == div_bits(
            sum_bits(pairs@.map_values(|p: (u64, u64)| p.1)),
            count_bits(pairs@.len() as usize),
        ),
{
    let ghost sines = pairs@.map_values(|p: (u64, u64)| p.0);
    let ghost cosines = pairs@.map_values(|p: (u64, u64)| p.1);
    let mut y: u64 = ZERO_BITS;
    let mut x: u64 = ZERO_BITS;
    let mut i: usize = 0;
    while i < pairs.len()
        invariant
            i <= pairs@.len(),
            sines == pairs@.map_values(|p: (u64, u64)| p.0),
            cosines == pairs@.map_values(|p: (u64, u64)| p.1),
            y == sum_bits(sines.take(i as int)),
            x == sum_bits(cosines.take(i as int)),
        decreases pairs@.len() - i,
    {
        let p: (u64, u64) = pairs[i];
        proof {
            assert(sines.take(i + 1).drop_last() =~= sines.take(i as int));
            assert(cosines.take(i + 1).drop_last() =~= cosines.take(i as int));
            assert(sines.take(i + 1).last() == p.0);
            assert(cosines.take(i + 1).last() == p.1);
        }
        y = f64_add(y, p.0);
        x = f64_add(x, p.1);
        i = i + 1;
    }
    proof {
        assert(sines.take(pairs@.len() as int) =~= sines);
        assert(cosines.take(pairs@.len() as int) =~= cosines);
    }
    let n: u64 = f64_from_usize(pairs.len());
    (f64_div(y, n), f64_div(x, n))
}

} // verus!
