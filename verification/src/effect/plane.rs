//! A stationary plane: pixels blend between two boundary colours by their
//! signed distance from the plane.

use vstd::prelude::*;

use crate::colour::{lerp_channel, Colour};
use crate::effect::geometry::{signed_distance, signed_plane_distance};
use crate::fixed::{clamp_i64, clamp_spec, div_trunc, div_trunc_spec};
use crate::input::KeyInput;
use crate::pixel::{pixels_wf, same_positions, Pixel};
use crate::vec3::{in_field, unit_normal, Vec3};

verus! {

#[derive(Clone, Copy, Debug, PartialEq, Eq, Structural)]
pub struct PlaneEffect {
    pub pos: Vec3,
    pub normal: Vec3,
    pub colour_a: Colour,
    pub colour_b: Colour,
    /// Distance in milli-units at which the blend saturates.
    pub distance_coef: i64,
}

/// The blend weight out of 1000 for a point at signed distance `d` with
/// saturation distance `coef`: the distance scaled to `[-1000, 1000]`,
/// remapped onto `[0, 1000]`. A point on the plane gets exactly 500.
pub open spec fn blend_fraction_spec(d: int, coef: int) -> int {
    (clamp_spec(div_trunc_spec(d * 1000, coef), -1000, 1000) + 1000) / 2
}

/// The colour of the blend at weight `t` out of 1000.
pub open spec fn blend_colour_spec(a: Colour, b: Colour, t: int) -> Colour {
    Colour {
        h: lerp_channel(a.h as int, b.h as int, t, 360000) as i64,
        s: lerp_channel(a.s as int, b.s as int, t, 1000) as i64,
        v: lerp_channel(a.v as int, b.v as int, t, 1000) as i64,
    }
}

impl PlaneEffect {
    pub open spec fn wf(self) -> bool {
        &&& in_field(self.pos)
        &&& unit_normal(self.normal)
        &&& self.colour_a.wf()
        &&& self.colour_b.wf()
        &&& 0 < self.distance_coef <= 1000000
    }

    /// Thirty units above the origin, facing up, blending black to white
    /// over sixty units.
    pub fn default() -> (r: PlaneEffect)
        ensures
            r == (PlaneEffect {
                pos: Vec3 { x: 0i64, y: 30000i64, z: 0i64 },
                normal: Vec3 { x: 0i64, y: 1000i64, z: 0i64 },
                colour_a: Colour { h: 0i64, s: 0i64, v: 0i64 },
                colour_b: Colour { h: 0i64, s: 0i64, v: 1000i64 },
                distance_coef: 60000i64,
            }),
            r.wf(),
    {
        PlaneEffect {
            pos: Vec3::new(0, 30000, 0),
            normal: Vec3::new(0, 1000, 0),
            colour_a: Colour::black(),
            colour_b: Colour::white(),
            distance_coef: 60000,
        }
    }

    /// The colour this effect gives a pixel: the blend at the pixel's
    /// signed distance from the plane.
    pub open spec fn render_one(self, p: Pixel) -> Colour {
        blend_colour_spec(
            self.colour_a,
            self.colour_b,
            blend_fraction_spec(
                signed_plane_distance(self.pos, self.normal, p.position),
                self.distance_coef as int,
            ),
        )
    }

    pub fn render(&self, pixels: &mut Vec<Pixel>)
        requires
            self.wf(),
            pixels_wf(old(pixels)@),
        ensures
            same_positions(old(pixels)@, final(pixels)@),
            forall|i: int|
                0 <= i < old(pixels)@.len() ==> #[trigger] final(pixels)@[i].colour
                    == self.render_one(old(pixels)@[i]),
            pixels_wf(final(pixels)@),
    {
        let n = pixels.len();
        let mut i: usize = 0;
        while i < n
            invariant
                self.wf(),
                pixels_wf(old(pixels)@),
                n == pixels@.len(),
                i <= n,
                same_positions(old(pixels)@, pixels@),
                forall|j: int|
                    0 <= j < i ==> #[trigger] pixels@[j].colour == self.render_one(
                        old(pixels)@[j],
                    ),
                forall|j: int| 0 <= j < i ==> #[trigger] pixels@[j].wf(),
                forall|j: int| i <= j < n ==> #[trigger] pixels@[j] == old(pixels)@[j],
            decreases n - i,
        {
            proof {
                assert(old(pixels)@[i as int].wf());
            }
            let position = pixels[i].position;
            let colour = self.colour_at(position);
            pixels[i] = Pixel { colour, position };
            i = i + 1;
        }
    }

    /// The blend colour for one position.
    pub fn colour_at(&self, position: Vec3) -> (c: Colour)
        requires
            self.wf(),
            crate::vec3::in_scene(position),
        ensures
            c == blend_colour_spec(
                self.colour_a,
                self.colour_b,
                blend_fraction_spec(
                    signed_plane_distance(self.pos, self.normal, position),
                    self.distance_coef as int,
                ),
            ),
            c.wf(),
    {
        let d = signed_distance(self.pos, self.normal, position);
        let scaled = clamp_i64(div_trunc(d * 1000, self.distance_coef), -1000, 1000);
        let t = (scaled + 1000) / 2;
        proof {
            vstd::arithmetic::div_mod::lemma_div_pos_is_pos(scaled + 1000, 2);
            vstd::arithmetic::div_mod::lemma_div_is_ordered(scaled + 1000, 2000, 2);
            vstd::arithmetic::div_mod::lemma_div_multiples_vanish(1000, 2);
        }
        Colour::lerp(self.colour_a, self.colour_b, t)
    }

    /// A stationary plane does not move.
    pub fn update(&mut self, delta: i64, pixels: &Vec<Pixel>)
        ensures
            *final(self) == *old(self),
    {
    }

    /// What one parameter edit does: the arrow keys widen or narrow the
    /// blend band by one unit, within `[1, 1000]` units; anything else is
    /// ignored.
    pub open spec fn input_rel(pre: Self, post: Self, key: KeyInput) -> bool {
        &&& key == KeyInput::Up ==> post == (PlaneEffect {
            distance_coef: clamp_spec(pre.distance_coef + 1000, 1000, 1000000) as i64,
            ..pre
        })
        &&& key == KeyInput::Down ==> post == (PlaneEffect {
            distance_coef: clamp_spec(pre.distance_coef - 1000, 1000, 1000000) as i64,
            ..pre
        })
        &&& !(key == KeyInput::Up || key == KeyInput::Down) ==> post == pre
    }

    pub fn handle_input(&mut self, key: KeyInput)
        requires
            old(self).wf(),
        ensures
            final(self).wf(),
            Self::input_rel(*old(self), *final(self), key),
    {
        match key {
            KeyInput::Up => {
                self.distance_coef = clamp_i64(self.distance_coef + 1000, 1000, 1000000);
            },
            KeyInput::Down => {
                self.distance_coef = clamp_i64(self.distance_coef - 1000, 1000, 1000000);
            },
            _ => {},
        }
    }
}

/// A pixel exactly on the plane always receives the midpoint blend: weight
/// 500 out of 1000, whatever the saturation distance.
pub proof fn lemma_plane_midpoint(eff: PlaneEffect, p: Pixel)
    requires
        eff.wf(),
        signed_plane_distance(eff.pos, eff.normal, p.position) == 0,
    ensures
        eff.render_one(p) == blend_colour_spec(eff.colour_a, eff.colour_b, 500),
{
    assert(0int * 1000 == 0);
    vstd::arithmetic::div_mod::lemma_div_of0(eff.distance_coef as int);
    vstd::arithmetic::div_mod::lemma_div_multiples_vanish(500, 2);
    assert(blend_fraction_spec(0, eff.distance_coef as int) == 1000int / 2);
    assert(1000int == 2 * 500);
}

} // verus!
