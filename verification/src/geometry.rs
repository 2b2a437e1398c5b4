//! Geometry primitives: 3-vectors, unit quaternions and rays over
//! single-precision bit patterns.
//!
//! Every operation is the single-precision computation the engine performs,
//! stated exactly: each executable function returns precisely the value of
//! its spec twin, which composes the named IEEE operations in the order the
//! executable code applies them. Since single-precision arithmetic is neither
//! associative nor distributive, the order of operations is part of the
//! specification.

use vstd::prelude::*;

use crate::ieee::{
    fadd, fdiv, fmul, fsqrt, fsub, ieee_add, ieee_div, ieee_mul, ieee_sqrt, ieee_sub, TWO_BITS,
};

verus! {

/// A 3D vector or point; each component is a single-precision bit pattern.
#[derive(Clone, Copy, Debug, PartialEq, Eq, Structural)]
pub struct Vec3 {
    pub x: u32,
    pub y: u32,
    pub z: u32,
}

/// A quaternion with vector part `(x, y, z)` and scalar part `w`, each a
/// single-precision bit pattern. Base-station orientations are expected to
/// be unit quaternions; rotation by a non-unit quaternion silently skews the
/// geometry, exactly as it would in the underlying arithmetic.
#[derive(Clone, Copy, Debug, PartialEq, Eq, Structural)]
pub struct Quat {
    pub x: u32,
    pub y: u32,
    pub z: u32,
    pub w: u32,
}

/// A ray: an origin point and a direction vector. Transient value, computed
/// fresh for each triangulation and never stored.
#[derive(Clone, Copy, Debug, PartialEq, Eq, Structural)]
pub struct Ray {
    pub origin: Vec3,
    pub direction: Vec3,
}

/// The identity quaternion: zero vector part, unit scalar part.
pub open spec fn spec_quat_identity() -> Quat {
    Quat { x: crate::ieee::ZERO_BITS, y: crate::ieee::ZERO_BITS, z: crate::ieee::ZERO_BITS, w: crate::ieee::ONE_BITS }
}

/// The identity quaternion, which rotates nothing.
pub fn quat_identity() -> (r: Quat)
    ensures
        r == spec_quat_identity(),
{
    Quat { x: crate::ieee::ZERO_BITS, y: crate::ieee::ZERO_BITS, z: crate::ieee::ZERO_BITS, w: crate::ieee::ONE_BITS }
}

/// Componentwise sum.
pub open spec fn spec_add3(a: Vec3, b: Vec3) -> Vec3 {
    Vec3 { x: ieee_add(a.x, b.x), y: ieee_add(a.y, b.y), z: ieee_add(a.z, b.z) }
}

/// Componentwise difference.
pub open spec fn spec_sub3(a: Vec3, b: Vec3) -> Vec3 {
    Vec3 { x: ieee_sub(a.x, b.x), y: ieee_sub(a.y, b.y), z: ieee_sub(a.z, b.z) }
}

/// Each component multiplied by the scalar `s` (component on the left).
pub open spec fn spec_scale3(v: Vec3, s: u32) -> Vec3 {
    Vec3 { x: ieee_mul(v.x, s), y: ieee_mul(v.y, s), z: ieee_mul(v.z, s) }
}

/// Each component divided by the scalar `s`.
pub open spec fn spec_div3(v: Vec3, s: u32) -> Vec3 {
    Vec3 { x: ieee_div(v.x, s), y: ieee_div(v.y, s), z: ieee_div(v.z, s) }
}

/// Dot product, summed left to right: `((x*x' + y*y') + z*z')`.
pub open spec fn spec_dot(a: Vec3, b: Vec3) -> u32 {
    ieee_add(ieee_add(ieee_mul(a.x, b.x), ieee_mul(a.y, b.y)), ieee_mul(a.z, b.z))
}

/// Cross product.
pub open spec fn spec_cross(a: Vec3, b: Vec3) -> Vec3 {
    Vec3 {
        x: ieee_sub(ieee_mul(a.y, b.z), ieee_mul(a.z, b.y)),
        y: ieee_sub(ieee_mul(a.z, b.x), ieee_mul(a.x, b.z)),
        z: ieee_sub(ieee_mul(a.x, b.y), ieee_mul(a.y, b.x)),
    }
}

/// The vector part of a quaternion.
pub open spec fn spec_quat_vector(q: Quat) -> Vec3 {
    Vec3 { x: q.x, y: q.y, z: q.z }
}

/// Rotation of `v` by the unit quaternion `q`, computed as
/// `t = (qv x v) * 2; (t * w + (qv x t)) + v` with `qv` the vector part and
/// `w` the scalar part of `q`.
pub open spec fn spec_rotate(q: Quat, v: Vec3) -> Vec3 {
    let qv = spec_quat_vector(q);
    let t = spec_scale3(spec_cross(qv, v), TWO_BITS);
    let c = spec_cross(qv, t);
    spec_add3(spec_add3(spec_scale3(t, q.w), c), v)
}

/// The Euclidean norm: the square root of the dot product with itself.
pub open spec fn spec_norm(v: Vec3) -> u32 {
    ieee_sqrt(spec_dot(v, v))
}

/// The vector scaled to unit length: each component divided by the norm.
/// If the norm degenerates to zero the components divide by zero, which in
/// this arithmetic yields infinities or NaNs rather than a trap.
pub open spec fn spec_normalize(v: Vec3) -> Vec3 {
    spec_div3(v, spec_norm(v))
}

/// Componentwise sum.
pub fn vec3_add(a: Vec3, b: Vec3) -> (r: Vec3)
    ensures
        r == spec_add3(a, b),
{
    Vec3 { x: fadd(a.x, b.x), y: fadd(a.y, b.y), z: fadd(a.z, b.z) }
}

/// Componentwise difference.
pub fn vec3_sub(a: Vec3, b: Vec3) -> (r: Vec3)
    ensures
        r == spec_sub3(a, b),
{
    Vec3 { x: fsub(a.x, b.x), y: fsub(a.y, b.y), z: fsub(a.z, b.z) }
}

/// Each component multiplied by the scalar `s`.
pub fn vec3_scale(v: Vec3, s: u32) -> (r: Vec3)
    ensures
        r == spec_scale3(v, s),
{
    Vec3 { x: fmul(v.x, s), y: fmul(v.y, s), z: fmul(v.z, s) }
}

/// Each component divided by the scalar `s`.
pub fn vec3_div(v: Vec3, s: u32) -> (r: Vec3)
    ensures
        r == spec_div3(v, s),
{
    Vec3 { x: fdiv(v.x, s), y: fdiv(v.y, s), z: fdiv(v.z, s) }
}

/// Dot product.
pub fn vec3_dot(a: Vec3, b: Vec3) -> (r: u32)
    ensures
        r == spec_dot(a, b),
{
    let xx = fmul(a.x, b.x);
    let yy = fmul(a.y, b.y);
    let zz = fmul(a.z, b.z);
    fadd(fadd(xx, yy), zz)
}

/// Cross product.
pub fn vec3_cross(a: Vec3, b: Vec3) -> (r: Vec3)
    ensures
        r == spec_cross(a, b),
{
    Vec3 {
        x: fsub(fmul(a.y, b.z), fmul(a.z, b.y)),
        y: fsub(fmul(a.z, b.x), fmul(a.x, b.z)),
        z: fsub(fmul(a.x, b.y), fmul(a.y, b.x)),
    }
}

/// Rotation of `v` by the unit quaternion `q`.
pub fn rotate(q: Quat, v: Vec3) -> (r: Vec3)
    ensures
        r == spec_rotate(q, v),
{
    let qv = Vec3 { x: q.x, y: q.y, z: q.z };
    let t = vec3_scale(vec3_cross(qv, v), TWO_BITS);
    let c = vec3_cross(qv, t);
    vec3_add(vec3_add(vec3_scale(t, q.w), c), v)
}

/// The vector scaled to unit length.
pub fn normalize(v: Vec3) -> (r: Vec3)
    ensures
        r == spec_normalize(v),
{
    let n = fsqrt(vec3_dot(v, v));
    vec3_div(v, n)
}

} // verus!
