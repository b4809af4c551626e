//! A horizontal plane sweeping upward whose distance to each pixel picks
//! the pixel's hue, painting a moving rainbow band.

use vstd::prelude::*;

use crate::colour::Colour;
use crate::effect::geometry::{abs_distance, abs_plane_distance};
use crate::fixed::{clamp_i64, clamp_spec, div_trunc, div_trunc_spec, wrap_mod};
use crate::input::KeyInput;
use crate::pixel::{pixels_wf, same_positions, Pixel};
use crate::vec3::{dot_spec, Vec3};

verus! {

/// The sweep direction of the rainbow plane: straight up.
pub open spec fn up_normal() -> Vec3 {
    Vec3 { x: 0i64, y: 1000i64, z: 0i64 }
}

#[derive(Clone, Copy, Debug, PartialEq, Eq, Structural)]
pub struct RainbowPlaneEffect {
    pub pos: Vec3,
    /// How many hue steps one milli-unit of distance is worth.
    pub multiplier: i64,
    /// Sweep speed in milli-units per second.
    pub movement_speed: i64,
}

impl RainbowPlaneEffect {
    pub open spec fn wf(self) -> bool {
        &&& self.pos.x == 0
        &&& self.pos.z == 0
        &&& 0 <= self.pos.y <= 1080000
        &&& 1 <= self.multiplier <= 10
        &&& 0 <= self.movement_speed <= 1000000
    }

    pub fn default() -> (r: RainbowPlaneEffect)
        ensures
            r == (RainbowPlaneEffect {
                pos: Vec3 { x: 0i64, y: 0i64, z: 0i64 },
                multiplier: 1i64,
                movement_speed: 50000i64,
            }),
            r.wf(),
    {
        RainbowPlaneEffect { pos: Vec3::new(0, 0, 0), multiplier: 1, movement_speed: 50000 }
    }

    /// The colour this effect gives a pixel: full saturation and value,
    /// hue taken from the pixel's distance to the plane, offset by thirty
    /// degrees and wrapped around the circle.
    pub open spec fn render_one(self, p: Pixel) -> Colour {
        let d = (self.multiplier as int) * abs_plane_distance(self.pos, up_normal(), p.position);
        Colour { h: ((d + 30000) % 360000) as i64, s: 1000i64, v: 1000i64 }
    }

    pub fn colour_at(&self, position: Vec3) -> (c: Colour)
        requires
            self.wf(),
            crate::vec3::in_scene(position),
        ensures
            c == self.render_one(Pixel { colour: c, position }),
            c.wf(),
    {
        let normal = Vec3::new(0, 1000, 0);
        proof {
            assert(dot_spec(normal, normal) == 1000000);
        }
        let d = abs_distance(self.pos, normal, position);
        proof {
            crate::fixed::lemma_mul_le(
                self.multiplier as int,
                d as int,
                10,
                crate::effect::geometry::DISTANCE_BOUND as int,
            );
        }
        Colour::new(self.multiplier * d + 30000, 1000, 1000)
    }

    pub fn render(&self, pixels: &mut Vec<Pixel>)
        requires
            self.wf(),
            pixels_wf(old(pixels)@),
        ensures
            same_positions(old(pixels)@, final(pixels)@),
            forall|i: int|
                0 <= i < old(pixels)@.len() ==> #[trigger] final(pixels)@[i].colour
                    == self.render_one(old(pixels)@[i]),
            pixels_wf(final(pixels)@),
    {
        let n = pixels.len();
        let mut i: usize = 0;
        while i < n
            invariant
                self.wf(),
                pixels_wf(old(pixels)@),
                n == pixels@.len(),
                i <= n,
                same_positions(old(pixels)@, pixels@),
                forall|j: int|
                    0 <= j < i ==> #[trigger] pixels@[j].colour == self.render_one(
                        old(pixels)@[j],
                    ),
                forall|j: int| 0 <= j < i ==> #[trigger] pixels@[j].wf(),
                forall|j: int| i <= j < n ==> #[trigger] pixels@[j] == old(pixels)@[j],
            decreases n - i,
        {
            proof {
                assert(old(pixels)@[i as int].wf());
            }
            let position = pixels[i].position;
            let colour = self.colour_at(position);
            pixels[i] = Pixel { colour, position };
            i = i + 1;
        }
    }

    /// The plane's height after one tick: it climbs by `speed * delta` and
    /// wraps over a period of 720 units offset 360 units up.
    pub open spec fn updated(self, delta: int) -> RainbowPlaneEffect {
        let mv = div_trunc_spec((self.movement_speed as int) * delta, 1000);
        RainbowPlaneEffect {
            pos: Vec3 { y: ((self.pos.y + mv) % 720000 + 360000) as i64, ..self.pos },
            ..self
        }
    }

    pub fn update(&mut self, delta: i64, pixels: &Vec<Pixel>)
        requires
            old(self).wf(),
            0 <= delta <= 10000,
        ensures
            *final(self) == old(self).updated(delta as int),
            final(self).wf(),
    {
        proof {
            crate::fixed::lemma_mul_le(
                self.movement_speed as int,
                delta as int,
                1000000,
                10000,
            );
        }
        let mv = div_trunc(self.movement_speed * delta, 1000);
        proof {
            vstd::arithmetic::div_mod::lemma_div_pos_is_pos(
                self.movement_speed as int * delta as int,
                1000,
            );
        }
        let y = wrap_mod(self.pos.y + mv, 720000) + 360000;
        self.pos = Vec3::new(self.pos.x, y, self.pos.z);
    }

    /// What one parameter edit does: `K`/`k` and `J`/`j` step the sweep
    /// speed by ten or five units per second within `[0, 1000]`; the arrow
    /// keys step the hue multiplier within `[1, 10]`.
    pub open spec fn input_rel(pre: Self, post: Self, key: KeyInput) -> bool {
        &&& key == KeyInput::Char('K') ==> post == (RainbowPlaneEffect {
            movement_speed: clamp_spec(pre.movement_speed + 10000, 0, 1000000) as i64,
            ..pre
        })
        &&& key == KeyInput::Char('k') ==> post == (RainbowPlaneEffect {
            movement_speed: clamp_spec(pre.movement_speed + 5000, 0, 1000000) as i64,
            ..pre
        })
        &&& key == KeyInput::Char('J') ==> post == (RainbowPlaneEffect {
            movement_speed: clamp_spec(pre.movement_speed - 10000, 0, 1000000) as i64,
            ..pre
        })
        &&& key == KeyInput::Char('j') ==> post == (RainbowPlaneEffect {
            movement_speed: clamp_spec(pre.movement_speed - 5000, 0, 1000000) as i64,
            ..pre
        })
        &&& key == KeyInput::Up ==> post == (RainbowPlaneEffect {
            multiplier: clamp_spec(pre.multiplier + 1, 1, 10) as i64,
            ..pre
        })
        &&& key == KeyInput::Down ==> post == (RainbowPlaneEffect {
            multiplier: clamp_spec(pre.multiplier - 1, 1, 10) as i64,
            ..pre
        })
        &&& !(key == KeyInput::Char('K') || key == KeyInput::Char('k') || key == KeyInput::Char(
            'J',
        ) || key == KeyInput::Char('j') || key == KeyInput::Up || key == KeyInput::Down) ==> post
            == pre
    }

    pub fn handle_input(&mut self, key: KeyInput)
        requires
            old(self).wf(),
        ensures
            final(self).wf(),
            Self::input_rel(*old(self), *final(self), key),
    {
        match key {
            KeyInput::Char('K') => {
                self.movement_speed = clamp_i64(self.movement_speed + 10000, 0, 1000000);
            },
            KeyInput::Char('k') => {
                self.movement_speed = clamp_i64(self.movement_speed + 5000, 0, 1000000);
            },
            KeyInput::Char('J') => {
                self.movement_speed = clamp_i64(self.movement_speed - 10000, 0, 1000000);
            },
            KeyInput::Char('j') => {
                self.movement_speed = clamp_i64(self.movement_speed - 5000, 0, 1000000);
            },
            KeyInput::Up => {
                self.multiplier = clamp_i64(self.multiplier + 1, 1, 10);
            },
            KeyInput::Down => {
                self.multiplier = clamp_i64(self.multiplier - 1, 1, 10);
            },
            _ => {},
        }
    }
}

} // verus!
