//! Projection of a pixel onto an effect's plane.
//!
//! The signed distance of a point from a plane is the projection of the
//! point's offset onto the plane's normal, divided by the normal's
//! magnitude. With positions in milli-units and a milli-unit normal the
//! quotient is again in milli-units.

use vstd::prelude::*;

use crate::fixed::{abs_i64, abs_spec, div_trunc, div_trunc_spec};
use crate::vec3::{dot_spec, in_field, in_scene, mag_spec, unit_normal, Vec3, FIELD_LIMIT,
    SCENE_LIMIT};

verus! {

/// Componentwise difference at the specification level; exact whenever the
/// mathematical difference fits an `i64`, which the geometry bounds below
/// guarantee.
pub open spec fn sub_spec(a: Vec3, b: Vec3) -> Vec3 {
    Vec3 { x: (a.x - b.x) as i64, y: (a.y - b.y) as i64, z: (a.z - b.z) as i64 }
}

/// Signed distance in milli-units of point `p` from the plane through
/// `pos` with normal `normal`.
pub open spec fn signed_plane_distance(pos: Vec3, normal: Vec3, p: Vec3) -> int {
    div_trunc_spec(dot_spec(sub_spec(p, pos), normal), mag_spec(normal))
}

/// Absolute distance in milli-units of point `p` from the same plane.
pub open spec fn abs_plane_distance(pos: Vec3, normal: Vec3, p: Vec3) -> int {
    div_trunc_spec(abs_spec(dot_spec(sub_spec(p, pos), normal)), mag_spec(normal))
}

/// No projection of a scene point on a field plane exceeds this many
/// milli-units.
pub const DISTANCE_BOUND: i64 = 303000000000;

pub fn signed_distance(pos: Vec3, normal: Vec3, p: Vec3) -> (d: i64)
    requires
        in_field(pos),
        unit_normal(normal),
        in_scene(p),
    ensures
        d == signed_plane_distance(pos, normal, p),
        abs_spec(d as int) <= DISTANCE_BOUND,
{
    let diff = Vec3::sub(p, pos);
    let dv = Vec3::dot(diff, normal);
    proof {
        lemma_dot_bound(diff, normal, (SCENE_LIMIT + FIELD_LIMIT) as int, 1000);
    }
    let m = Vec3::mag(normal);
    div_trunc(dv, m)
}

pub fn abs_distance(pos: Vec3, normal: Vec3, p: Vec3) -> (d: i64)
    requires
        in_field(pos),
        unit_normal(normal),
        in_scene(p),
    ensures
        d == abs_plane_distance(pos, normal, p),
        0 <= d <= DISTANCE_BOUND,
{
    let diff = Vec3::sub(p, pos);
    let dv = Vec3::dot(diff, normal);
    proof {
        lemma_dot_bound(diff, normal, (SCENE_LIMIT + FIELD_LIMIT) as int, 1000);
    }
    let m = Vec3::mag(normal);
    let d = div_trunc(abs_i64(dv), m);
    proof {
        vstd::arithmetic::div_mod::lemma_div_pos_is_pos(
            abs_spec(dv as int),
            mag_spec(normal),
        );
    }
    d
}

/// A product sum of two componentwise-bounded vectors is bounded by three
/// times the product of the bounds.
pub proof fn lemma_dot_bound(a: Vec3, b: Vec3, la: int, lb: int)
    requires
        0 <= la,
        0 <= lb,
        abs_spec(a.x as int) <= la,
        abs_spec(a.y as int) <= la,
        abs_spec(a.z as int) <= la,
        abs_spec(b.x as int) <= lb,
        abs_spec(b.y as int) <= lb,
        abs_spec(b.z as int) <= lb,
    ensures
        abs_spec(dot_spec(a, b)) <= 3 * (la * lb),
{
    crate::fixed::lemma_abs_mul_le(a.x as int, b.x as int, la, lb);
    crate::fixed::lemma_abs_mul_le(a.y as int, b.y as int, la, lb);
    crate::fixed::lemma_abs_mul_le(a.z as int, b.z as int, la, lb);
}

} // verus!
