//! Fixed-point 3D vectors.
//!
//! Components are stored in milli-units (`fixed::SCALE` per unit). `dot`
//! and `mag_squared` return the raw product sum, which is in squared
//! milli-units; `mag` is the integer square root of that sum and is again
//! in milli-units, so `mag(v)` of a unit-length `v` is close to `SCALE`.

use vstd::prelude::*;

use crate::fixed::{abs_spec, div_trunc, div_trunc_spec, isqrt_spec, isqrt_u64, clamp_i64,
    clamp_spec, lemma_isqrt_bracket};

verus! {

/// Largest magnitude a pixel position component may have: the scene in
/// which pixels live is a box of one thousand units around the origin.
pub const SCENE_LIMIT: i64 = 1000000;

/// Largest magnitude a component of an effect's own geometry (plane or
/// sphere anchor points) may have.
pub const FIELD_LIMIT: i64 = 100000000;

/// Largest component magnitude the product-sum operations accept without
/// risking `i64` overflow: three products of two such components still fit.
pub const DOT_LIMIT: i64 = 1500000000;

#[derive(Clone, Copy, Debug, PartialEq, Eq, Structural)]
pub struct Vec3 {
    pub x: i64,
    pub y: i64,
    pub z: i64,
}

/// Every component small enough for `dot`, `mag_squared` and `mag`.
pub open spec fn in_dot_range(a: Vec3) -> bool {
    &&& abs_spec(a.x as int) <= DOT_LIMIT
    &&& abs_spec(a.y as int) <= DOT_LIMIT
    &&& abs_spec(a.z as int) <= DOT_LIMIT
}

/// A pixel position: inside the scene box.
pub open spec fn in_scene(a: Vec3) -> bool {
    &&& abs_spec(a.x as int) <= SCENE_LIMIT
    &&& abs_spec(a.y as int) <= SCENE_LIMIT
    &&& abs_spec(a.z as int) <= SCENE_LIMIT
}

/// An effect geometry anchor: inside the (much larger) field box.
pub open spec fn in_field(a: Vec3) -> bool {
    &&& abs_spec(a.x as int) <= FIELD_LIMIT
    &&& abs_spec(a.y as int) <= FIELD_LIMIT
    &&& abs_spec(a.z as int) <= FIELD_LIMIT
}

/// A plane normal as the effects keep it: non-zero, with components at
/// most one unit, as `norm` produces.
pub open spec fn unit_normal(a: Vec3) -> bool {
    &&& abs_spec(a.x as int) <= crate::fixed::SCALE
    &&& abs_spec(a.y as int) <= crate::fixed::SCALE
    &&& abs_spec(a.z as int) <= crate::fixed::SCALE
    &&& dot_spec(a, a) > 0
}

/// The raw product sum of two vectors (squared milli-units).
pub open spec fn dot_spec(a: Vec3, b: Vec3) -> int {
    a.x * b.x + a.y * b.y + a.z * b.z
}

/// The magnitude in milli-units: the integer square root of `dot_spec(a, a)`.
pub open spec fn mag_spec(a: Vec3) -> int {
    isqrt_spec(dot_spec(a, a) as nat) as int
}

impl Vec3 {
    pub fn new(x: i64, y: i64, z: i64) -> (r: Vec3)
        ensures
            r == (Vec3 { x, y, z }),
    {
        Vec3 { x, y, z }
    }

    /// Raw product sum; the result is in squared milli-units.
    pub fn dot(a: Vec3, b: Vec3) -> (r: i64)
        requires
            in_dot_range(a),
            in_dot_range(b),
        ensures
            r == dot_spec(a, b),
    {
        proof {
            lemma_product_bound(a.x as int, b.x as int, DOT_LIMIT as int);
            lemma_product_bound(a.y as int, b.y as int, DOT_LIMIT as int);
            lemma_product_bound(a.z as int, b.z as int, DOT_LIMIT as int);
        }
        a.x * b.x + a.y * b.y + a.z * b.z
    }

    pub fn mag_squared(a: Vec3) -> (r: i64)
        requires
            in_dot_range(a),
        ensures
            r == dot_spec(a, a),
            r >= 0,
    {
        proof {
            lemma_square_nonneg(a.x as int);
            lemma_square_nonneg(a.y as int);
            lemma_square_nonneg(a.z as int);
        }
        Vec3::dot(a, a)
    }

    /// Magnitude in milli-units. It dominates the absolute value of every
    /// component, which callers use to bound normalized components.
    pub fn mag(a: Vec3) -> (r: i64)
        requires
            in_dot_range(a),
        ensures
            r == mag_spec(a),
            r >= 0,
            abs_spec(a.x as int) <= r,
            abs_spec(a.y as int) <= r,
            abs_spec(a.z as int) <= r,
            dot_spec(a, a) > 0 ==> r > 0,
    {
        let sq = Vec3::mag_squared(a);
        let root = isqrt_u64(sq as u64);
        let r = root as i64;
        proof {
            assert(sq as u64 as nat == dot_spec(a, a));
            lemma_component_below_root(a.x as int, a.y as int, a.z as int, r as int);
            lemma_component_below_root(a.y as int, a.x as int, a.z as int, r as int);
            lemma_component_below_root(a.z as int, a.x as int, a.y as int, r as int);
            if dot_spec(a, a) > 0 && r == 0 {
                assert(root == 0);
                assert((sq as u64) < (root + 1) * (root + 1));
                assert((sq as u64) < 1) by (nonlinear_arith)
                    requires
                        root == 0,
                        (sq as u64) < (root + 1) * (root + 1),
                ;
            }
        }
        r
    }

    /// Scale to a unit-length direction: each component becomes
    /// `c * SCALE / mag`, rounded toward zero, so no component of the
    /// result exceeds one unit in magnitude.
    pub fn norm(a: Vec3) -> (r: Vec3)
        requires
            in_dot_range(a),
            dot_spec(a, a) > 0,
        ensures
            r.x == div_trunc_spec(a.x * crate::fixed::SCALE, mag_spec(a)),
            r.y == div_trunc_spec(a.y * crate::fixed::SCALE, mag_spec(a)),
            r.z == div_trunc_spec(a.z * crate::fixed::SCALE, mag_spec(a)),
            abs_spec(r.x as int) <= crate::fixed::SCALE,
            abs_spec(r.y as int) <= crate::fixed::SCALE,
            abs_spec(r.z as int) <= crate::fixed::SCALE,
    {
        let m = Vec3::mag(a);
        let x = div_trunc(a.x * 1000, m);
        let y = div_trunc(a.y * 1000, m);
        let z = div_trunc(a.z * 1000, m);
        proof {
            lemma_scaled_quotient_bounded(a.x as int, m as int);
            lemma_scaled_quotient_bounded(a.y as int, m as int);
            lemma_scaled_quotient_bounded(a.z as int, m as int);
        }
        Vec3 { x, y, z }
    }

    pub fn add(a: Vec3, b: Vec3) -> (r: Vec3)
        requires
            in_dot_range(a),
            in_dot_range(b),
        ensures
            r.x == a.x + b.x,
            r.y == a.y + b.y,
            r.z == a.z + b.z,
    {
        Vec3 { x: a.x + b.x, y: a.y + b.y, z: a.z + b.z }
    }

    pub fn sub(a: Vec3, b: Vec3) -> (r: Vec3)
        requires
            in_dot_range(a),
            in_dot_range(b),
        ensures
            r.x == a.x - b.x,
            r.y == a.y - b.y,
            r.z == a.z - b.z,
    {
        Vec3 { x: a.x - b.x, y: a.y - b.y, z: a.z - b.z }
    }

    /// Multiply by a fixed-point scalar: each component becomes
    /// `c * b / SCALE`, rounded toward zero.
    pub fn mul_scalar(a: Vec3, b: i64) -> (r: Vec3)
        requires
            in_dot_range(a),
            abs_spec(b as int) <= DOT_LIMIT,
        ensures
            r.x == div_trunc_spec(a.x * b, crate::fixed::SCALE as int),
            r.y == div_trunc_spec(a.y * b, crate::fixed::SCALE as int),
            r.z == div_trunc_spec(a.z * b, crate::fixed::SCALE as int),
    {
        proof {
            lemma_product_bound(a.x as int, b as int, DOT_LIMIT as int);
            lemma_product_bound(a.y as int, b as int, DOT_LIMIT as int);
            lemma_product_bound(a.z as int, b as int, DOT_LIMIT as int);
        }
        Vec3 {
            x: div_trunc(a.x * b, 1000),
            y: div_trunc(a.y * b, 1000),
            z: div_trunc(a.z * b, 1000),
        }
    }

    /// Clamp every component into `[low, high]`.
    pub fn clamp_scalar(a: Vec3, low: i64, high: i64) -> (r: Vec3)
        requires
            low <= high,
        ensures
            r.x == clamp_spec(a.x as int, low as int, high as int),
            r.y == clamp_spec(a.y as int, low as int, high as int),
            r.z == clamp_spec(a.z as int, low as int, high as int),
    {
        Vec3 {
            x: clamp_i64(a.x, low, high),
            y: clamp_i64(a.y, low, high),
            z: clamp_i64(a.z, low, high),
        }
    }
}

proof fn lemma_product_bound(a: int, b: int, lim: int)
    by (nonlinear_arith)
    requires
        0 <= lim,
        abs_spec(a) <= lim,
        abs_spec(b) <= lim,
    ensures
        abs_spec(a * b) <= lim * lim,
{
}

proof fn lemma_square_nonneg(a: int)
    by (nonlinear_arith)
    ensures
        a * a >= 0,
        a * a == abs_spec(a) * abs_spec(a),
{
}

/// If `r` is the integer square root of `x*x + y*y + z*z`, then `|x| <= r`.
proof fn lemma_component_below_root(x: int, y: int, z: int, r: int)
    requires
        r >= 0,
        r * r <= x * x + y * y + z * z,
        x * x + y * y + z * z < (r + 1) * (r + 1),
    ensures
        abs_spec(x) <= r,
{
    lemma_square_nonneg(x);
    let b = abs_spec(x);
    if b > r {
        assert(false) by (nonlinear_arith)
            requires
                r >= 0,
                b >= r + 1,
                b * b == x * x,
                x * x + y * y + z * z < (r + 1) * (r + 1),
        ;
    }
}

/// If `|a| <= m` then the scaled quotient `a * SCALE / m` stays within one
/// unit in magnitude.
proof fn lemma_scaled_quotient_bounded(a: int, m: int)
    requires
        m > 0,
        abs_spec(a) <= m,
    ensures
        abs_spec(div_trunc_spec(a * 1000, m)) <= 1000,
{
    vstd::arithmetic::div_mod::lemma_div_multiples_vanish(1000, m);
    if a >= 0 {
        assert(0 <= a * 1000 <= m * 1000) by (nonlinear_arith)
            requires
                0 <= a <= m,
        ;
        vstd::arithmetic::div_mod::lemma_div_is_ordered(a * 1000, m * 1000, m);
        vstd::arithmetic::div_mod::lemma_div_pos_is_pos(a * 1000, m);
    } else {
        let b = -a;
        assert(b * 1000 == -(a * 1000));
        assert(0 <= b * 1000 <= m * 1000) by (nonlinear_arith)
            requires
                0 <= b <= m,
        ;
        vstd::arithmetic::div_mod::lemma_div_is_ordered(b * 1000, m * 1000, m);
        vstd::arithmetic::div_mod::lemma_div_pos_is_pos(b * 1000, m);
    }
}

} // verus!
