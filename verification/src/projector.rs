//! Angle-to-ray projection.
//!
//! A decoded sweep gives a horizontal and a vertical angle in the beacon's
//! local frame. The local direction for angles `(h, v)` is
//! `(sin(h)*cos(v), sin(v), -cos(h)*cos(v))`; it is rotated into the world
//! frame by the station's orientation quaternion and then scaled to unit
//! length. Normalization is unconditional: for the degenerate zero vector
//! (which no finite angle pair produces, since the local direction always
//! has unit length up to rounding) the division yields NaN components rather
//! than a trap.

use vstd::prelude::*;

use crate::decoder::SweepMeasurement;
use crate::geometry::{normalize, rotate, spec_normalize, spec_rotate, Quat, Vec3};
use crate::ieee::{fmul, fneg, ieee_mul, neg_bits};

verus! {

/// The direction of the sweep in the beacon's local frame:
/// `(sin(h)*cos(v), sin(v), -cos(h)*cos(v))`, before normalization.
pub open spec fn spec_local_direction(m: SweepMeasurement) -> Vec3 {
    Vec3 {
        x: ieee_mul(m.sin_h, m.cos_v),
        y: m.sin_v,
        z: ieee_mul(neg_bits(m.cos_h), m.cos_v),
    }
}

/// The world-space direction of the sweep seen from a station with the given
/// orientation: the local direction rotated by the orientation, then scaled
/// to unit length.
pub open spec fn spec_project(m: SweepMeasurement, orientation: Quat) -> Vec3 {
    spec_normalize(spec_rotate(orientation, spec_local_direction(m)))
}

/// Projects a decoded angle pair and a station orientation to a world-space
/// unit direction vector.
pub fn project(m: &SweepMeasurement, orientation: Quat) -> (r: Vec3)
    ensures
        r == spec_project(*m, orientation),
{
    let local = Vec3 {
        x: fmul(m.sin_h, m.cos_v),
        y: m.sin_v,
        z: fmul(fneg(m.cos_h), m.cos_v),
    };
    normalize(rotate(orientation, local))
}

} // verus!
