//! A sphere growing from the fixture's centre: pixels inside it take the
//! effect's hue; once every pixel is engulfed, the radius snaps back to
//! zero with a fresh random hue.

use vstd::prelude::*;

use crate::colour::{shifted_hue, Colour};
use crate::effect::random_moving_plane::{centre, centre_spec, draw_range};
use crate::effect::geometry::sub_spec;
use crate::fixed::{clamp_i64, clamp_spec, div_trunc, div_trunc_spec};
use crate::input::KeyInput;
use crate::pixel::{pixels_wf, same_positions, Pixel};
use crate::vec3::{mag_spec, Vec3};

verus! {

/// No scene point is further from the centre than this many milli-units.
pub const CENTRE_DISTANCE_BOUND: i64 = 2600000;

/// The radius never grows past the furthest possible pixel: the tick that
/// would have taken it there finds every pixel engulfed and resets it.
pub const RADIUS_LIMIT: i64 = 2600000;

/// Distance of a pixel from the fixture's centre, in milli-units.
pub open spec fn centre_distance(p: Vec3) -> int {
    mag_spec(sub_spec(p, centre_spec()))
}

#[derive(Clone, Copy, Debug, PartialEq, Eq, Structural)]
pub struct ExpandingCircleEffect {
    /// Current radius in milli-units.
    pub radius: i64,
    /// Growth in milli-units per second.
    pub expansion_speed: i64,
    pub colour: Colour,
}

impl ExpandingCircleEffect {
    pub open spec fn wf(self) -> bool {
        &&& 0 <= self.radius <= RADIUS_LIMIT
        &&& 0 <= self.expansion_speed <= 1000000
        &&& self.colour.wf()
    }

    /// A pixel strictly inside the sphere.
    pub open spec fn engulfed(self, p: Pixel) -> bool {
        centre_distance(p.position) < self.radius
    }

    /// Every pixel of the buffer is inside the sphere.
    pub open spec fn all_engulfed(self, pixels: Seq<Pixel>) -> bool {
        forall|i: int| 0 <= i < pixels.len() ==> self.engulfed(#[trigger] pixels[i])
    }

    /// Radius zero, fifty units per second, and a first hue taken from the
    /// random draw.
    pub fn default() -> (r: ExpandingCircleEffect)
        ensures
            r.wf(),
            r.radius == 0,
            r.expansion_speed == 50000,
            r.colour.s == 1000 && r.colour.v == 1000,
    {
        let mut eff = ExpandingCircleEffect {
            radius: 0,
            expansion_speed: 50000,
            colour: Colour::black(),
        };
        eff.random_colour();
        eff
    }

    /// Pick the next hue: sixty to three hundred degrees onward from the
    /// current one, at full saturation and value.
    pub fn random_colour(&mut self)
        requires
            old(self).colour.wf(),
        ensures
            final(self).colour.s == 1000,
            final(self).colour.v == 1000,
            final(self).colour.wf(),
            exists|k: int|
                60 <= k <= 300 && final(self).colour.h == #[trigger] shifted_hue(
                    old(self).colour.h as int,
                    k,
                ),
            final(self).radius == old(self).radius,
            final(self).expansion_speed == old(self).expansion_speed,
    {
        let step = draw_range(240);
        self.colour = Colour::new(self.colour.h + 60000 + step * 1000, 1000, 1000);
        proof {
            let k = 60 + step as int;
            assert(60 <= k <= 300 && self.colour.h == shifted_hue(old(self).colour.h as int, k));
        }
    }

    /// The colour this effect gives a pixel: its own hue inside the
    /// sphere, the pixel's previous colour outside.
    pub open spec fn render_one(self, p: Pixel) -> Colour {
        if self.engulfed(p) {
            self.colour
        } else {
            p.colour
        }
    }

    pub fn render(&self, pixels: &mut Vec<Pixel>)
        requires
            self.wf(),
            pixels_wf(old(pixels)@),
        ensures
            same_positions(old(pixels)@, final(pixels)@),
            forall|i: int|
                0 <= i < old(pixels)@.len() ==> #[trigger] final(pixels)@[i].colour
                    == self.render_one(old(pixels)@[i]),
            pixels_wf(final(pixels)@),
    {
        let n = pixels.len();
        let mut i: usize = 0;
        while i < n
            invariant
                self.wf(),
                pixels_wf(old(pixels)@),
                n == pixels@.len(),
                i <= n,
                same_positions(old(pixels)@, pixels@),
                forall|j: int|
                    0 <= j < i ==> #[trigger] pixels@[j].colour == self.render_one(
                        old(pixels)@[j],
                    ),
                forall|j: int| 0 <= j < i ==> #[trigger] pixels@[j].wf(),
                forall|j: int| i <= j < n ==> #[trigger] pixels@[j] == old(pixels)@[j],
            decreases n - i,
        {
            proof {
                assert(old(pixels)@[i as int].wf());
            }
            let p = pixels[i];
            let d = Vec3::mag(Vec3::sub(p.position, centre()));
            if d < self.radius {
                pixels[i] = Pixel { colour: self.colour, position: p.position };
            }
            i = i + 1;
        }
    }

    /// The radius after the growth step of a tick.
    pub open spec fn grown(self, delta: int) -> int {
        self.radius + div_trunc_spec((self.expansion_speed as int) * delta, 1000)
    }

    /// What one tick does: the radius grows with time; once every pixel is
    /// engulfed (trivially so for an empty buffer) it resets to zero and
    /// the hue moves on sixty to three hundred degrees.
    pub open spec fn update_rel(pre: Self, post: Self, delta: int, pixels: Seq<Pixel>) -> bool {
        let g = ExpandingCircleEffect { radius: pre.grown(delta) as i64, ..pre };
        if g.all_engulfed(pixels) {
            &&& post.radius == 0
            &&& post.colour.s == 1000
            &&& post.colour.v == 1000
            &&& exists|k: int|
                60 <= k <= 300 && post.colour.h == #[trigger] shifted_hue(pre.colour.h as int, k)
            &&& post.expansion_speed == pre.expansion_speed
        } else {
            post == g
        }
    }

    pub fn update(&mut self, delta: i64, pixels: &Vec<Pixel>)
        requires
            old(self).wf(),
            0 <= delta <= 10000,
            pixels_wf(pixels@),
        ensures
            final(self).wf(),
            Self::update_rel(*old(self), *final(self), delta as int, pixels@),
    {
        proof {
            crate::fixed::lemma_mul_le(
                self.expansion_speed as int,
                delta as int,
                1000000,
                10000,
            );
            vstd::arithmetic::div_mod::lemma_div_pos_is_pos(
                self.expansion_speed as int * delta as int,
                1000,
            );
        }
        let mv = div_trunc(self.expansion_speed * delta, 1000);
        self.radius = self.radius + mv;
        let ghost g = *self;

        let n = pixels.len();
        let mut all_coloured = true;
        let mut i: usize = 0;
        while i < n
            invariant
                *self == g,
                pixels_wf(pixels@),
                n == pixels@.len(),
                i <= n,
                all_coloured <==> (forall|j: int|
                    0 <= j < i ==> g.engulfed(#[trigger] pixels@[j])),
            decreases n - i,
        {
            proof {
                assert(pixels@[i as int].wf());
            }
            let p = pixels[i];
            let d = Vec3::mag(Vec3::sub(p.position, centre()));
            if d >= self.radius {
                all_coloured = false;
            }
            i = i + 1;
        }
        if all_coloured {
            self.random_colour();
            self.radius = 0;
        } else {
            proof {
                let j = choose|j: int| 0 <= j < n && !g.engulfed(pixels@[j]);
                assert(pixels@[j].wf());
                lemma_centre_distance_bounded(pixels@[j].position);
            }
        }
    }

    /// What one parameter edit does: `K`/`k` and `J`/`j` step the growth
    /// speed by ten or five units per second within `[0, 1000]`.
    pub open spec fn input_rel(pre: Self, post: Self, key: KeyInput) -> bool {
        &&& key == KeyInput::Char('K') ==> post == (ExpandingCircleEffect {
            expansion_speed: clamp_spec(pre.expansion_speed + 10000, 0, 1000000) as i64,
            ..pre
        })
        &&& key == KeyInput::Char('k') ==> post == (ExpandingCircleEffect {
            expansion_speed: clamp_spec(pre.expansion_speed + 5000, 0, 1000000) as i64,
            ..pre
        })
        &&& key == KeyInput::Char('J') ==> post == (ExpandingCircleEffect {
            expansion_speed: clamp_spec(pre.expansion_speed - 10000, 0, 1000000) as i64,
            ..pre
        })
        &&& key == KeyInput::Char('j') ==> post == (ExpandingCircleEffect {
            expansion_speed: clamp_spec(pre.expansion_speed - 5000, 0, 1000000) as i64,
            ..pre
        })
        &&& !(key == KeyInput::Char('K') || key == KeyInput::Char('k') || key == KeyInput::Char(
            'J',
        ) || key == KeyInput::Char('j')) ==> post == pre
    }

    pub fn handle_input(&mut self, key: KeyInput)
        requires
            old(self).wf(),
        ensures
            final(self).wf(),
            Self::input_rel(*old(self), *final(self), key),
    {
        match key {
            KeyInput::Char('K') => {
                self.expansion_speed = clamp_i64(self.expansion_speed + 10000, 0, 1000000);
            },
            KeyInput::Char('k') => {
                self.expansion_speed = clamp_i64(self.expansion_speed + 5000, 0, 1000000);
            },
            KeyInput::Char('J') => {
                self.expansion_speed = clamp_i64(self.expansion_speed - 10000, 0, 1000000);
            },
            KeyInput::Char('j') => {
                self.expansion_speed = clamp_i64(self.expansion_speed - 5000, 0, 1000000);
            },
            _ => {},
        }
    }
}

/// A scene point is never further than `CENTRE_DISTANCE_BOUND` from the
/// fixture's centre.
pub proof fn lemma_centre_distance_bounded(p: Vec3)
    requires
        crate::vec3::in_scene(p),
    ensures
        0 <= centre_distance(p) < CENTRE_DISTANCE_BOUND,
{
    let d = sub_spec(p, centre_spec());
    let n = crate::vec3::dot_spec(d, d) as nat;
    crate::fixed::lemma_abs_mul_le(d.x as int, d.x as int, 1300000, 1300000);
    crate::fixed::lemma_abs_mul_le(d.y as int, d.y as int, 1300000, 1300000);
    crate::fixed::lemma_abs_mul_le(d.z as int, d.z as int, 1300000, 1300000);
    assert(d.x * d.x >= 0 && d.y * d.y >= 0 && d.z * d.z >= 0) by (nonlinear_arith);
    crate::fixed::lemma_isqrt_bracket(n);
    let r = crate::fixed::isqrt_spec(n);
    if r >= CENTRE_DISTANCE_BOUND {
        assert(false) by (nonlinear_arith)
            requires
                r >= 2600000,
                r * r <= n,
                n <= 3 * (1300000 * 1300000int),
        ;
    }
}

} // verus!
