//! Closest-approach triangulation of a ray pair.
//!
//! Two world-space rays toward the same sensor generally do not intersect;
//! the position fix is the midpoint of the two closest points, computed by
//! the least-squares closest-point formula. When the rays are parallel or
//! numerically degenerate — the magnitude of the denominator `a*c - b*b`
//! falls below the tolerance — there is no fix.

use vstd::prelude::*;

use crate::geometry::{
    spec_add3, spec_dot, spec_scale3, spec_sub3, vec3_add, vec3_dot, vec3_scale, vec3_sub, Ray,
    Vec3,
};
use crate::ieee::{
    fadd, fdiv, fmul, fsub, ieee_add, ieee_div, ieee_mul, ieee_sub, is_finite_bits,
    magnitude_below, magnitude_is_below, TWO_BITS,
};

verus! {

/// Bit pattern of the single-precision tolerance below which the magnitude
/// of the denominator counts as degenerate: the value ten to the minus
/// sixth. The guard must be exactly this value for reproducibility.
pub const PARALLEL_EPS_BITS: u32 = 0x3586_37BD;

/// The denominator `a*c - b*b` of the closest-point formula, where `a`, `b`
/// and `c` are the pairwise dot products of the two directions.
pub open spec fn spec_denom(ray1: Ray, ray2: Ray) -> u32 {
    let a = spec_dot(ray1.direction, ray1.direction);
    let b = spec_dot(ray1.direction, ray2.direction);
    let c = spec_dot(ray2.direction, ray2.direction);
    ieee_sub(ieee_mul(a, c), ieee_mul(b, b))
}

/// Whether the ray pair counts as parallel or degenerate: the magnitude of
/// the denominator is below the tolerance. A NaN or infinite denominator is
/// not below any finite threshold, so such a pair does not count as
/// parallel, exactly as in the single-precision comparison.
pub open spec fn spec_rays_parallel(ray1: Ray, ray2: Ray) -> bool {
    magnitude_below(spec_denom(ray1, ray2), PARALLEL_EPS_BITS)
}

/// The midpoint of two points: the componentwise sum divided by two.
pub open spec fn spec_midpoint(p1: Vec3, p2: Vec3) -> Vec3 {
    Vec3 {
        x: ieee_div(ieee_add(p1.x, p2.x), TWO_BITS),
        y: ieee_div(ieee_add(p1.y, p2.y), TWO_BITS),
        z: ieee_div(ieee_add(p1.z, p2.z), TWO_BITS),
    }
}

/// The closest-approach point of a non-degenerate ray pair:
/// `w0 = o1 - o2`, `t1 = (b*e - c*d)/denom`, `t2 = (a*e - b*d)/denom`,
/// and the result is the midpoint of `o1 + d1*t1` and `o2 + d2*t2`.
pub open spec fn spec_closest_point(ray1: Ray, ray2: Ray) -> Vec3 {
    let w0 = spec_sub3(ray1.origin, ray2.origin);
    let a = spec_dot(ray1.direction, ray1.direction);
    let b = spec_dot(ray1.direction, ray2.direction);
    let c = spec_dot(ray2.direction, ray2.direction);
    let d = spec_dot(ray1.direction, w0);
    let e = spec_dot(ray2.direction, w0);
    let denom = spec_denom(ray1, ray2);
    let t1 = ieee_div(ieee_sub(ieee_mul(b, e), ieee_mul(c, d)), denom);
    let t2 = ieee_div(ieee_sub(ieee_mul(a, e), ieee_mul(b, d)), denom);
    let p1 = spec_add3(ray1.origin, spec_scale3(ray1.direction, t1));
    let p2 = spec_add3(ray2.origin, spec_scale3(ray2.direction, t2));
    spec_midpoint(p1, p2)
}

/// What triangulation returns: no fix for a parallel or degenerate pair,
/// otherwise the closest-approach midpoint.
pub open spec fn spec_closest_approach(ray1: Ray, ray2: Ray) -> Option<Vec3> {
    if spec_rays_parallel(ray1, ray2) {
        None
    } else {
        Some(spec_closest_point(ray1, ray2))
    }
}

/// Computes the closest-approach point between two rays, or nothing when
/// the pair is parallel or degenerate.
///
/// The result is a function of the two rays alone, so repeated calls on the
/// same pair return the same answer. The last clause pins the degenerate
/// case the engine's same-measurement simplification produces: when the two
/// directions are literally equal and their squared norms multiply to a
/// finite value, the denominator cancels to zero exactly and there is no
/// fix.
pub fn closest_approach(ray1: &Ray, ray2: &Ray) -> (r: Option<Vec3>)
    ensures
        r == spec_closest_approach(*ray1, *ray2),
        r is None <==> spec_rays_parallel(*ray1, *ray2),
        (ray1.direction == ray2.direction && is_finite_bits(
            ieee_mul(
                spec_dot(ray1.direction, ray1.direction),
                spec_dot(ray2.direction, ray2.direction),
            ),
        )) ==> r is None,
{
    let w0 = vec3_sub(ray1.origin, ray2.origin);
    let a = vec3_dot(ray1.direction, ray1.direction);
    let b = vec3_dot(ray1.direction, ray2.direction);
    let c = vec3_dot(ray2.direction, ray2.direction);
    let d = vec3_dot(ray1.direction, w0);
    let e = vec3_dot(ray2.direction, w0);

    let ac = fmul(a, c);
    let bb = fmul(b, b);
    let denom = fsub(ac, bb);
    if magnitude_is_below(denom, PARALLEL_EPS_BITS) {
        None
    } else {
        let t1 = fdiv(fsub(fmul(b, e), fmul(c, d)), denom);
        let t2 = fdiv(fsub(fmul(a, e), fmul(b, d)), denom);
        let p1 = vec3_add(ray1.origin, vec3_scale(ray1.direction, t1));
        let p2 = vec3_add(ray2.origin, vec3_scale(ray2.direction, t2));
        proof {
            lemma_zero_magnitude_below_eps();
        }
        Some(Vec3 {
            x: fdiv(fadd(p1.x, p2.x), TWO_BITS),
            y: fdiv(fadd(p1.y, p2.y), TWO_BITS),
            z: fdiv(fadd(p1.z, p2.z), TWO_BITS),
        })
    }
}

/// The zero pattern's magnitude is below the parallel tolerance.
proof fn lemma_zero_magnitude_below_eps()
    ensures
        magnitude_below(crate::ieee::ZERO_BITS, PARALLEL_EPS_BITS),
{
    assert(0u32 & 0x7FFF_FFFFu32 == 0u32) by (bit_vector);
}

/// Law: a ray pair triangulates to no fix exactly when it counts as
/// parallel or degenerate, deterministically — the outcome is a function of
/// the pair alone.
pub proof fn lemma_parallel_pair_has_no_fix(ray1: Ray, ray2: Ray)
    ensures
        spec_closest_approach(ray1, ray2) is None <==> spec_rays_parallel(ray1, ray2),
{
}

} // verus!
