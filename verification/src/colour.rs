//! HSV colours in fixed point.
//!
//! Hue is stored in milli-degrees and lies in `[0, 360000)`; saturation and
//! value are stored in milli-units and lie in `[0, 1000]`. Conversion to
//! RGB uses the standard six-sector hexagonal projection, with every step
//! carried out in exact integer arithmetic; the final byte of a channel is
//! the rounded value of `255 * (channel + m)` taken back to units.

use vstd::prelude::*;

use crate::fixed::{abs_i64, abs_spec, clamp_i64, clamp_spec, wrap_mod};

verus! {

/// Full circle of hue in milli-degrees.
pub const HUE_RANGE: i64 = 360000;

#[derive(Clone, Copy, Debug, PartialEq, Eq, Structural)]
pub struct Colour {
    /// Hue in milli-degrees, `[0, 360000)` when well formed.
    pub h: i64,
    /// Saturation in milli-units, `[0, 1000]` when well formed.
    pub s: i64,
    /// Value in milli-units, `[0, 1000]` when well formed.
    pub v: i64,
}

/// The hue `k` degrees onward from `h` milli-degrees, wrapped around the
/// circle. The randomized effects promise their fresh hue has this form
/// for some step in `[60, 300]`.
pub open spec fn shifted_hue(h: int, k: int) -> int {
    (h + k * 1000) % 360000
}

/// One interpolated channel: the weighted mean of `a` and `b` at weight
/// `t` out of 1000, clamped into `[0, hi]`.
pub open spec fn lerp_channel(a: int, b: int, t: int, hi: int) -> int {
    clamp_spec((a * (1000 - t) + b * t) / 1000, 0, hi)
}

/// The chroma of a colour: `v * s` scaled back to milli-units.
pub open spec fn chroma_spec(c: Colour) -> int {
    c.v * c.s / 1000
}

/// The secondary component of the hexagonal projection: the chroma scaled
/// by how far the hue sits from the centre of its two-sector block.
pub open spec fn xval_spec(c: Colour) -> int {
    chroma_spec(c) * (60000 - abs_spec(c.h as int % 120000 - 60000)) / 60000
}

/// The (r, g, b) contributions before the match offset `m = v - chroma`
/// is added, picked by the hue's sector of sixty degrees; the last sector
/// is the fallback for every hue at or past three hundred degrees.
pub open spec fn base_rgb_spec(c: Colour) -> (int, int, int) {
    let ch = chroma_spec(c);
    let x = xval_spec(c);
    if c.h < 60000 {
        (ch, x, 0)
    } else if c.h < 120000 {
        (x, ch, 0)
    } else if c.h < 180000 {
        (0, ch, x)
    } else if c.h < 240000 {
        (0, x, ch)
    } else if c.h < 300000 {
        (x, 0, ch)
    } else {
        (ch, 0, x)
    }
}

/// A channel in milli-units taken to a byte: `255 * val / 1000`, rounded
/// to the nearest integer.
pub open spec fn byte_spec(val: int) -> int {
    (255 * val + 500) / 1000
}

/// The full conversion of a well-formed colour to bytes.
pub open spec fn rgb_spec(c: Colour) -> (int, int, int) {
    let m = c.v - chroma_spec(c);
    (
        byte_spec(base_rgb_spec(c).0 + m),
        byte_spec(base_rgb_spec(c).1 + m),
        byte_spec(base_rgb_spec(c).2 + m),
    )
}

impl Colour {
    /// Hue in range, saturation and value in range.
    pub open spec fn wf(self) -> bool {
        &&& 0 <= self.h < HUE_RANGE
        &&& 0 <= self.s <= 1000
        &&& 0 <= self.v <= 1000
    }

    /// Build a well-formed colour from raw fixed-point parts: the hue is
    /// wrapped into its circle, saturation and value are clamped.
    pub fn new(h: i64, s: i64, v: i64) -> (r: Colour)
        requires
            i64::MIN < h,
        ensures
            r.h == h as int % (HUE_RANGE as int),
            r.s == clamp_spec(s as int, 0, 1000),
            r.v == clamp_spec(v as int, 0, 1000),
            r.wf(),
    {
        Colour {
            h: wrap_mod(h, HUE_RANGE),
            s: clamp_i64(s, 0, 1000),
            v: clamp_i64(v, 0, 1000),
        }
    }

    /// Linear interpolation of the two colours, channel by channel, at
    /// weight `t` out of 1000. Callers supply `t` already inside `[0, 1000]`.
    pub fn lerp(c1: Colour, c2: Colour, t: i64) -> (r: Colour)
        requires
            c1.wf(),
            c2.wf(),
            0 <= t <= 1000,
        ensures
            r.h == lerp_channel(c1.h as int, c2.h as int, t as int, HUE_RANGE as int),
            r.s == lerp_channel(c1.s as int, c2.s as int, t as int, 1000),
            r.v == lerp_channel(c1.v as int, c2.v as int, t as int, 1000),
            r.wf(),
    {
        proof {
            lemma_weighted_mean_bounds(c1.h as int, c2.h as int, t as int, HUE_RANGE - 1);
            lemma_weighted_mean_bounds(c1.s as int, c2.s as int, t as int, 1000);
            lemma_weighted_mean_bounds(c1.v as int, c2.v as int, t as int, 1000);
        }
        let t1 = 1000 - t;
        let h = clamp_i64((c1.h * t1 + c2.h * t) / 1000, 0, HUE_RANGE);
        let s = clamp_i64((c1.s * t1 + c2.s * t) / 1000, 0, 1000);
        let v = clamp_i64((c1.v * t1 + c2.v * t) / 1000, 0, 1000);
        Colour { h, s, v }
    }

    /// Convert to RGB bytes by the hexagonal projection.
    pub fn to_rgb(hsv: &Colour) -> (r: (u8, u8, u8))
        requires
            hsv.wf(),
        ensures
            r.0 == rgb_spec(*hsv).0,
            r.1 == rgb_spec(*hsv).1,
            r.2 == rgb_spec(*hsv).2,
    {
        proof {
            lemma_scaled_product_bounds(hsv.v as int, hsv.s as int);
        }
        let c = hsv.v * hsv.s / 1000;
        let hm = hsv.h % 120000;
        let d = abs_i64(hm - 60000);
        proof {
            lemma_xval_bounds(c as int, d as int);
        }
        let x = c * (60000 - d) / 60000;
        let (r1, g1, b1) = if hsv.h < 60000 {
            (c, x, 0)
        } else if hsv.h < 120000 {
            (x, c, 0)
        } else if hsv.h < 180000 {
            (0, c, x)
        } else if hsv.h < 240000 {
            (0, x, c)
        } else if hsv.h < 300000 {
            (x, 0, c)
        } else {
            (c, 0, x)
        };
        let m = hsv.v - c;
        (byte_of(r1 + m), byte_of(g1 + m), byte_of(b1 + m))
    }

    pub fn white() -> (r: Colour)
        ensures
            r == (Colour { h: 0i64, s: 0i64, v: 1000i64 }),
    {
        Colour { h: 0, s: 0, v: 1000 }
    }

    pub fn black() -> (r: Colour)
        ensures
            r == (Colour { h: 0i64, s: 0i64, v: 0i64 }),
    {
        Colour { h: 0, s: 0, v: 0 }
    }

    pub fn red() -> (r: Colour)
        ensures
            r == (Colour { h: 0i64, s: 1000i64, v: 1000i64 }),
    {
        Colour { h: 0, s: 1000, v: 1000 }
    }

    pub fn yellow() -> (r: Colour)
        ensures
            r == (Colour { h: 60000i64, s: 1000i64, v: 1000i64 }),
    {
        Colour { h: 60000, s: 1000, v: 1000 }
    }

    pub fn green() -> (r: Colour)
        ensures
            r == (Colour { h: 120000i64, s: 1000i64, v: 1000i64 }),
    {
        Colour { h: 120000, s: 1000, v: 1000 }
    }

    pub fn cyan() -> (r: Colour)
        ensures
            r == (Colour { h: 180000i64, s: 1000i64, v: 1000i64 }),
    {
        Colour { h: 180000, s: 1000, v: 1000 }
    }

    pub fn blue() -> (r: Colour)
        ensures
            r == (Colour { h: 240000i64, s: 1000i64, v: 1000i64 }),
    {
        Colour { h: 240000, s: 1000, v: 1000 }
    }

    pub fn pink() -> (r: Colour)
        ensures
            r == (Colour { h: 300000i64, s: 1000i64, v: 1000i64 }),
    {
        Colour { h: 300000, s: 1000, v: 1000 }
    }
}

/// A channel in milli-units to its byte, rounding to nearest.
fn byte_of(val: i64) -> (b: u8)
    requires
        0 <= val <= 1000,
    ensures
        b == byte_spec(val as int),
{
    proof {
        lemma_byte_bounds(val as int);
    }
    ((255 * val + 500) / 1000) as u8
}

proof fn lemma_byte_bounds(val: int)
    requires
        0 <= val <= 1000,
    ensures
        0 <= byte_spec(val) <= 255,
{
    vstd::arithmetic::div_mod::lemma_div_pos_is_pos(255 * val + 500, 1000);
    vstd::arithmetic::div_mod::lemma_div_is_ordered(255 * val + 500, 255500, 1000);
}

/// The weighted mean of two channel values in `[0, hi]` needs no clamping:
/// it already lies in `[0, hi]`, and at the extreme weights it is exactly
/// the corresponding endpoint.
pub proof fn lemma_weighted_mean_bounds(a: int, b: int, t: int, hi: int)
    requires
        0 <= a <= hi,
        0 <= b <= hi,
        0 <= t <= 1000,
    ensures
        0 <= (a * (1000 - t) + b * t) / 1000 <= hi,
        0 <= a * (1000 - t) <= hi * 1000,
        0 <= b * t <= hi * 1000,
        lerp_channel(a, b, t, hi) == (a * (1000 - t) + b * t) / 1000,
        t == 0 ==> lerp_channel(a, b, t, hi) == a,
        t == 1000 ==> lerp_channel(a, b, t, hi) == b,
{
    let sum = a * (1000 - t) + b * t;
    assert(0 <= sum <= hi * 1000 && 0 <= a * (1000 - t) <= hi * 1000 && 0 <= b * t <= hi
        * 1000) by (nonlinear_arith)
        requires
            0 <= a <= hi,
            0 <= b <= hi,
            0 <= t <= 1000,
            sum == a * (1000 - t) + b * t,
    ;
    vstd::arithmetic::div_mod::lemma_div_pos_is_pos(sum, 1000);
    vstd::arithmetic::div_mod::lemma_div_is_ordered(sum, hi * 1000, 1000);
    vstd::arithmetic::div_mod::lemma_div_multiples_vanish(hi, 1000);
    assert(hi * 1000 == 1000 * hi);
    if t == 0 {
        assert(sum == a * 1000) by (nonlinear_arith)
            requires
                t == 0,
                sum == a * (1000 - t) + b * t,
        ;
        vstd::arithmetic::div_mod::lemma_div_multiples_vanish(a, 1000);
        assert(a * 1000 == 1000 * a);
    }
    if t == 1000 {
        assert(sum == b * 1000) by (nonlinear_arith)
            requires
                t == 1000,
                sum == a * (1000 - t) + b * t,
        ;
        vstd::arithmetic::div_mod::lemma_div_multiples_vanish(b, 1000);
        assert(b * 1000 == 1000 * b);
    }
}

/// Chroma lies between zero and the colour's value.
proof fn lemma_scaled_product_bounds(v: int, s: int)
    requires
        0 <= v <= 1000,
        0 <= s <= 1000,
    ensures
        0 <= v * s / 1000 <= v,
        v * s <= 1000000,
{
    assert(0 <= v * s <= v * 1000) by (nonlinear_arith)
        requires
            0 <= v <= 1000,
            0 <= s <= 1000,
    ;
    vstd::arithmetic::div_mod::lemma_div_pos_is_pos(v * s, 1000);
    vstd::arithmetic::div_mod::lemma_div_is_ordered(v * s, v * 1000, 1000);
    vstd::arithmetic::div_mod::lemma_div_multiples_vanish(v, 1000);
    assert(v * 1000 == 1000 * v);
    assert(v * 1000 <= 1000000) by (nonlinear_arith)
        requires
            v <= 1000,
    ;
}

/// The secondary component lies between zero and the chroma.
proof fn lemma_xval_bounds(c: int, d: int)
    requires
        0 <= c <= 1000,
        0 <= d <= 60000,
    ensures
        0 <= c * (60000 - d) / 60000 <= c,
        c * (60000 - d) <= 60000000,
{
    assert(0 <= c * (60000 - d) <= c * 60000) by (nonlinear_arith)
        requires
            0 <= c,
            0 <= d <= 60000,
    ;
    vstd::arithmetic::div_mod::lemma_div_pos_is_pos(c * (60000 - d), 60000);
    vstd::arithmetic::div_mod::lemma_div_is_ordered(c * (60000 - d), c * 60000, 60000);
    vstd::arithmetic::div_mod::lemma_div_multiples_vanish(c, 60000);
    assert(c * 60000 == 60000 * c);
    assert(c * 60000 <= 60000000) by (nonlinear_arith)
        requires
            c <= 1000,
    ;
}

/// A fully desaturated colour turns into a grey: all three bytes carry the
/// value channel, whatever the hue.
pub proof fn lemma_grey_when_desaturated(c: Colour)
    requires
        c.wf(),
        c.s == 0,
    ensures
        rgb_spec(c).0 == byte_spec(c.v as int),
        rgb_spec(c).1 == byte_spec(c.v as int),
        rgb_spec(c).2 == byte_spec(c.v as int),
{
    assert(c.v * c.s == 0) by (nonlinear_arith)
        requires
            c.s == 0,
    ;
    assert(chroma_spec(c) == 0int / 1000);
    vstd::arithmetic::div_mod::lemma_div_of0(1000);
    assert(0int * (60000 - abs_spec(c.h as int % 120000 - 60000)) == 0);
    assert(xval_spec(c) == 0int / 60000);
    vstd::arithmetic::div_mod::lemma_div_of0(60000);
}

/// Interpolation at the extreme weights returns the endpoints exactly,
/// channel by channel.
pub proof fn lemma_lerp_endpoints(c1: Colour, c2: Colour)
    requires
        c1.wf(),
        c2.wf(),
    ensures
        lerp_channel(c1.h as int, c2.h as int, 0, HUE_RANGE as int) == c1.h,
        lerp_channel(c1.s as int, c2.s as int, 0, 1000) == c1.s,
        lerp_channel(c1.v as int, c2.v as int, 0, 1000) == c1.v,
        lerp_channel(c1.h as int, c2.h as int, 1000, HUE_RANGE as int) == c2.h,
        lerp_channel(c1.s as int, c2.s as int, 1000, 1000) == c2.s,
        lerp_channel(c1.v as int, c2.v as int, 1000, 1000) == c2.v,
{
    lemma_weighted_mean_bounds(c1.h as int, c2.h as int, 0, HUE_RANGE as int);
    lemma_weighted_mean_bounds(c1.s as int, c2.s as int, 0, 1000);
    lemma_weighted_mean_bounds(c1.v as int, c2.v as int, 0, 1000);
    lemma_weighted_mean_bounds(c1.h as int, c2.h as int, 1000, HUE_RANGE as int);
    lemma_weighted_mean_bounds(c1.s as int, c2.s as int, 1000, 1000);
    lemma_weighted_mean_bounds(c1.v as int, c2.v as int, 1000, 1000);
}

} // verus!
