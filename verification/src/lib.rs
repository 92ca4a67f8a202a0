//! A planar angle, tagged as a radian or a degree measure, with unit-aware
//! arithmetic, comparison and normalization.
//!
//! Angle payloads are IEEE 754 binary64 values, held by their bit patterns
//! (`u64`).  The structural logic — which unit a result carries, the
//! normalization and distance formulas, the circular-mean accumulation — is
//! verified; the rounding arithmetic on the payloads is done by an outside
//! software implementation of binary64 behind trusted wrappers.

pub mod angle;
pub mod arith;
pub mod bits;
pub mod laws;
pub mod mean;

pub use angle::Angle;
pub use angle::Angle::Degrees;
pub use angle::Angle::Radians;
