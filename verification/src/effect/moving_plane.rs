//! A plane that sweeps the fixture vertically and bounces at the fixture's
//! bounds, blending two colours like the stationary plane.

use vstd::prelude::*;

use crate::colour::Colour;
use crate::effect::constants::{MAX_Y, MIN_Y};
use crate::effect::plane::PlaneEffect;
use crate::fixed::{clamp_i64, clamp_spec, div_trunc, div_trunc_spec};
use crate::input::KeyInput;
use crate::pixel::{pixels_wf, same_positions, Pixel};
use crate::vec3::{dot_spec, in_field, unit_normal, Vec3};

verus! {

#[derive(Clone, Copy, Debug, PartialEq, Eq, Structural)]
pub struct MovingPlaneEffect {
    pub pos: Vec3,
    pub normal: Vec3,
    pub colour_a: Colour,
    pub colour_b: Colour,
    /// Distance in milli-units at which the blend saturates.
    pub distance_coef: i64,
    /// Sweep speed in milli-units per second.
    pub movement_speed: i64,
}

/// A normal pointing straight up or straight down at unit length.
pub open spec fn vertical_normal(n: Vec3) -> bool {
    &&& n.x == 0
    &&& n.z == 0
    &&& (n.y == 1000 || n.y == -1000)
}

pub proof fn lemma_vertical_is_unit(n: Vec3)
    requires
        vertical_normal(n),
    ensures
        unit_normal(n),
{
    if n.y == 1000 {
        assert(dot_spec(n, n) == 1000000);
    } else {
        assert(dot_spec(n, n) == 1000000);
    }
}

impl MovingPlaneEffect {
    pub open spec fn wf(self) -> bool {
        &&& in_field(self.pos)
        &&& MIN_Y <= self.pos.y <= MAX_Y
        &&& vertical_normal(self.normal)
        &&& self.colour_a.wf()
        &&& self.colour_b.wf()
        &&& 0 < self.distance_coef <= 1000000
        &&& 0 <= self.movement_speed <= 1000000
    }

    /// Starts at the bottom, sweeping up at one unit per second, blending
    /// white to green over sixty units.
    pub fn default() -> (r: MovingPlaneEffect)
        ensures
            r == (MovingPlaneEffect {
                pos: Vec3 { x: 0i64, y: 0i64, z: 0i64 },
                normal: Vec3 { x: 0i64, y: 1000i64, z: 0i64 },
                colour_a: Colour { h: 0i64, s: 0i64, v: 1000i64 },
                colour_b: Colour { h: 120000i64, s: 1000i64, v: 1000i64 },
                distance_coef: 60000i64,
                movement_speed: 1000i64,
            }),
            r.wf(),
    {
        MovingPlaneEffect {
            pos: Vec3::new(0, 0, 0),
            normal: Vec3::new(0, 1000, 0),
            colour_a: Colour::white(),
            colour_b: Colour::green(),
            distance_coef: 60000,
            movement_speed: 1000,
        }
    }

    /// The stationary plane this effect currently paints.
    pub open spec fn plane_view(self) -> PlaneEffect {
        PlaneEffect {
            pos: self.pos,
            normal: self.normal,
            colour_a: self.colour_a,
            colour_b: self.colour_b,
            distance_coef: self.distance_coef,
        }
    }

    pub open spec fn render_one(self, p: Pixel) -> Colour {
        self.plane_view().render_one(p)
    }

    /// Where the plane's height ends up after `delta` fixed-point seconds,
    /// before any bounce.
    pub open spec fn moved_y(self, delta: int) -> int {
        self.pos.y + div_trunc_spec(
            (self.normal.y as int) * div_trunc_spec((self.movement_speed as int) * delta, 1000),
            1000,
        )
    }

    /// The state after one tick: the plane moves along its normal; leaving
    /// the fixture's height band parks it at the bound and reverses the
    /// normal.
    pub open spec fn updated(self, delta: int) -> MovingPlaneEffect {
        let y = self.moved_y(delta);
        if y > MAX_Y {
            MovingPlaneEffect {
                pos: Vec3 { y: MAX_Y, ..self.pos },
                normal: Vec3 { x: 0i64, y: (-(self.normal.y as int)) as i64, z: 0i64 },
                ..self
            }
        } else if y < MIN_Y {
            MovingPlaneEffect {
                pos: Vec3 { y: MIN_Y, ..self.pos },
                normal: Vec3 { x: 0i64, y: (-(self.normal.y as int)) as i64, z: 0i64 },
                ..self
            }
        } else {
            MovingPlaneEffect { pos: Vec3 { y: y as i64, ..self.pos }, ..self }
        }
    }

    pub fn update(&mut self, delta: i64, pixels: &Vec<Pixel>)
        requires
            old(self).wf(),
            0 <= delta <= 10000,
        ensures
            *final(self) == old(self).updated(delta as int),
            final(self).wf(),
    {
        proof {
            crate::fixed::lemma_mul_le(
                self.movement_speed as int,
                delta as int,
                1000000,
                10000,
            );
        }
        let mv = div_trunc(self.movement_speed * delta, 1000);
        proof {
            crate::fixed::lemma_abs_mul_le(self.normal.y as int, mv as int, 1000, 10000000000);
        }
        let step = div_trunc(self.normal.y * mv, 1000);
        let y = self.pos.y + step;
        if y > MAX_Y {
            self.pos = Vec3::new(self.pos.x, MAX_Y, self.pos.z);
            self.normal = Vec3::new(0, -self.normal.y, 0);
        } else if y < MIN_Y {
            self.pos = Vec3::new(self.pos.x, MIN_Y, self.pos.z);
            self.normal = Vec3::new(0, -self.normal.y, 0);
        } else {
            self.pos = Vec3::new(self.pos.x, y, self.pos.z);
        }
    }

    pub fn render(&self, pixels: &mut Vec<Pixel>)
        requires
            self.wf(),
            pixels_wf(old(pixels)@),
        ensures
            same_positions(old(pixels)@, final(pixels)@),
            forall|i: int|
                0 <= i < old(pixels)@.len() ==> #[trigger] final(pixels)@[i].colour
                    == self.render_one(old(pixels)@[i]),
            pixels_wf(final(pixels)@),
    {
        proof {
            lemma_vertical_is_unit(self.normal);
        }
        let plane = PlaneEffect {
            pos: self.pos,
            normal: self.normal,
            colour_a: self.colour_a,
            colour_b: self.colour_b,
            distance_coef: self.distance_coef,
        };
        plane.render(pixels);
    }

    /// What one parameter edit does: `K`/`k` and `J`/`j` step the sweep
    /// speed by ten or five units per second within `[0, 1000]`; the arrow
    /// keys widen or narrow the blend band by one unit within `[1, 1000]`.
    pub open spec fn input_rel(pre: Self, post: Self, key: KeyInput) -> bool {
        &&& key == KeyInput::Char('K') ==> post == (MovingPlaneEffect {
            movement_speed: clamp_spec(pre.movement_speed + 10000, 0, 1000000) as i64,
            ..pre
        })
        &&& key == KeyInput::Char('k') ==> post == (MovingPlaneEffect {
            movement_speed: clamp_spec(pre.movement_speed + 5000, 0, 1000000) as i64,
            ..pre
        })
        &&& key == KeyInput::Char('J') ==> post == (MovingPlaneEffect {
            movement_speed: clamp_spec(pre.movement_speed - 10000, 0, 1000000) as i64,
            ..pre
        })
        &&& key == KeyInput::Char('j') ==> post == (MovingPlaneEffect {
            movement_speed: clamp_spec(pre.movement_speed - 5000, 0, 1000000) as i64,
            ..pre
        })
        &&& key == KeyInput::Up ==> post == (MovingPlaneEffect {
            distance_coef: clamp_spec(pre.distance_coef + 1000, 1000, 1000000) as i64,
            ..pre
        })
        &&& key == KeyInput::Down ==> post == (MovingPlaneEffect {
            distance_coef: clamp_spec(pre.distance_coef - 1000, 1000, 1000000) as i64,
            ..pre
        })
        &&& !(key == KeyInput::Char('K') || key == KeyInput::Char('k') || key == KeyInput::Char(
            'J',
        ) || key == KeyInput::Char('j') || key == KeyInput::Up || key == KeyInput::Down) ==> post
            == pre
    }

    pub fn handle_input(&mut self, key: KeyInput)
        requires
            old(self).wf(),
        ensures
            final(self).wf(),
            Self::input_rel(*old(self), *final(self), key),
    {
        match key {
            KeyInput::Char('K') => {
                self.movement_speed = clamp_i64(self.movement_speed + 10000, 0, 1000000);
            },
            KeyInput::Char('k') => {
                self.movement_speed = clamp_i64(self.movement_speed + 5000, 0, 1000000);
            },
            KeyInput::Char('J') => {
                self.movement_speed = clamp_i64(self.movement_speed - 10000, 0, 1000000);
            },
            KeyInput::Char('j') => {
                self.movement_speed = clamp_i64(self.movement_speed - 5000, 0, 1000000);
            },
            KeyInput::Up => {
                self.distance_coef = clamp_i64(self.distance_coef + 1000, 1000, 1000000);
            },
            KeyInput::Down => {
                self.distance_coef = clamp_i64(self.distance_coef - 1000, 1000, 1000000);
            },
            _ => {},
        }
    }
}

} // verus!
