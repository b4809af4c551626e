//! A plane that spawns at a random point on a cylinder around the fixture,
//! advances toward the fixture's centre, and respawns with a fresh hue once
//! it has passed through and no pixel is still within its band. Pixels it
//! leaves behind fade out geometrically.

use vstd::prelude::*;

use crate::colour::Colour;
use crate::effect::constants::{DEPTH, HEIGHT, WIDTH};
use crate::effect::geometry::{abs_distance, abs_plane_distance, sub_spec};
use crate::fixed::{clamp_i64, clamp_spec, div_trunc, div_trunc_spec};
use crate::input::KeyInput;
use crate::pixel::{pixels_wf, same_positions, Pixel};
use crate::trig::{cos_milli, cos_milli_spec, sin_milli, sin_milli_spec, TWO_PI_MILLI};
use crate::vec3::{dot_spec, in_field, mag_spec, unit_normal, Vec3, FIELD_LIMIT};

verus! {

/// The centre of the fixture: half way up its bounding box.
pub open spec fn centre_spec() -> Vec3 {
    Vec3 { x: 0i64, y: 205000i64, z: 0i64 }
}

/// The direction from `pos` toward the fixture's centre, normalized to a
/// unit normal; a degenerate direction falls back to straight up.
pub open spec fn toward_centre_spec(pos: Vec3) -> Vec3 {
    let d = sub_spec(centre_spec(), pos);
    if dot_spec(d, d) <= 0 {
        Vec3 { x: 0i64, y: 1000i64, z: 0i64 }
    } else {
        let m = mag_spec(d);
        let n = Vec3 {
            x: div_trunc_spec(d.x * 1000, m) as i64,
            y: div_trunc_spec(d.y * 1000, m) as i64,
            z: div_trunc_spec(d.z * 1000, m) as i64,
        };
        if n.x == 0 && n.y == 0 && n.z == 0 {
            Vec3 { x: 0i64, y: 1000i64, z: 0i64 }
        } else {
            n
        }
    }
}

/// The spawn point on the cylinder of radius `max(WIDTH, DEPTH) + distance`
/// around the fixture, at height `y` and angle `phi`.
pub open spec fn spawn_of(distance: i64, y: int, phi: int) -> Vec3 {
    let radius = (if WIDTH >= DEPTH {
        WIDTH
    } else {
        DEPTH
    }) + distance;
    Vec3 {
        x: div_trunc_spec(radius * cos_milli_spec(phi), 1000) as i64,
        y: y as i64,
        z: div_trunc_spec(radius * sin_milli_spec(phi), 1000) as i64,
    }
}

/// The value channel an un-lit pixel fades to on one tick: scaled by the
/// decay factor and snapped to black below a tenth.
pub open spec fn faded_value(decay: i64, v: i64) -> int {
    let dv = (v as int) * (decay as int) / 1000;
    if dv < 100 {
        0int
    } else {
        dv
    }
}

/// The per-pixel fade targets one tick computes from a buffer snapshot.
pub open spec fn faded_of(decay: i64, pixels: Seq<Pixel>) -> Seq<i64> {
    Seq::new(pixels.len(), |i: int| faded_value(decay, pixels[i].colour.v) as i64)
}

#[derive(Clone, Debug)]
pub struct RandomMovingPlaneEffect {
    pub pos: Vec3,
    pub normal: Vec3,
    pub colour: Colour,
    /// Advance speed in milli-units per second.
    pub movement_speed: i64,
    /// Per-tick multiplicative fade of un-lit pixels, in milli-units.
    pub decay: i64,
    /// Half-thickness of the lit band, in milli-units.
    pub distance: i64,
    /// The fade targets the last tick computed, one per pixel: the value
    /// channel an un-lit pixel is drawn with until the next tick. Rendering
    /// reads this state and never re-derives it, so a repeated render
    /// changes nothing.
    pub faded: Vec<i64>,
}

impl RandomMovingPlaneEffect {
    pub open spec fn wf(self) -> bool {
        &&& in_field(self.pos)
        &&& unit_normal(self.normal)
        &&& self.colour.wf()
        &&& 0 <= self.movement_speed <= 1000000
        &&& 0 <= self.decay <= 1000
        &&& 1000 <= self.distance <= 200000
        &&& forall|i: int| 0 <= i < self.faded@.len() ==> 0 <= #[trigger] self.faded@[i] <= 1000
    }

    /// A pixel within the plane's band, lit at the plane's hue.
    pub open spec fn lit(self, p: Pixel) -> bool {
        abs_plane_distance(self.pos, self.normal, p.position) < self.distance
    }

    /// Some pixel of the buffer is within the band.
    pub open spec fn any_lit(self, pixels: Seq<Pixel>) -> bool {
        exists|i: int| 0 <= i < pixels.len() && self.lit(#[trigger] pixels[i])
    }

    /// The plane has passed the fixture's centre: its normal no longer
    /// points toward it.
    pub open spec fn passed_centre(self) -> bool {
        dot_spec(self.normal, sub_spec(centre_spec(), self.pos)) < 0
    }

    /// The state after the advance step of a tick, before any respawn: the
    /// position moves along the normal, kept inside the field box.
    pub open spec fn moved(self, delta: int) -> RandomMovingPlaneEffect {
        let mv = div_trunc_spec((self.movement_speed as int) * delta, 1000);
        RandomMovingPlaneEffect {
            pos: Vec3 {
                x: clamp_spec(
                    self.pos.x + div_trunc_spec((self.normal.x as int) * mv, 1000),
                    -FIELD_LIMIT as int,
                    FIELD_LIMIT as int,
                ) as i64,
                y: clamp_spec(
                    self.pos.y + div_trunc_spec((self.normal.y as int) * mv, 1000),
                    -FIELD_LIMIT as int,
                    FIELD_LIMIT as int,
                ) as i64,
                z: clamp_spec(
                    self.pos.z + div_trunc_spec((self.normal.z as int) * mv, 1000),
                    -FIELD_LIMIT as int,
                    FIELD_LIMIT as int,
                ) as i64,
            },
            ..self
        }
    }

    /// Spawn at height `y_milli` on the cylinder of radius
    /// `max(WIDTH, DEPTH) + distance` at angle `phi_milli`, aim at the
    /// centre, and shift the hue sixty to three hundred degrees onward.
    pub fn respawn_at(&mut self, y_milli: i64, phi_milli: i64, hue_step: i64)
        requires
            old(self).wf(),
            0 <= y_milli <= HEIGHT,
            0 <= phi_milli <= TWO_PI_MILLI,
            0 <= hue_step <= 240,
        ensures
            final(self).wf(),
            final(self).pos == spawn_of(old(self).distance, y_milli as int, phi_milli as int),
            final(self).normal == toward_centre_spec(final(self).pos),
            final(self).colour == (Colour {
                h: ((old(self).colour.h + 60000 + hue_step * 1000) % 360000) as i64,
                s: 1000i64,
                v: 1000i64,
            }),
            final(self).movement_speed == old(self).movement_speed,
            final(self).decay == old(self).decay,
            final(self).distance == old(self).distance,
            final(self).faded@ == old(self).faded@,
    {
        let radius = if WIDTH >= DEPTH {
            WIDTH + self.distance
        } else {
            DEPTH + self.distance
        };
        let c = cos_milli(phi_milli);
        let s = sin_milli(phi_milli);
        proof {
            crate::fixed::lemma_abs_mul_le(radius as int, c as int, 380000, 1000);
            crate::fixed::lemma_abs_mul_le(radius as int, s as int, 380000, 1000);
            crate::fixed::lemma_div_trunc_abs_le(radius as int * c as int, 1000, 380000);
            crate::fixed::lemma_div_trunc_abs_le(radius as int * s as int, 1000, 380000);
        }
        let x = div_trunc(radius * c, 1000);
        let z = div_trunc(radius * s, 1000);
        self.pos = Vec3::new(x, y_milli, z);
        self.normal = toward_centre(self.pos);
        self.colour = Colour::new(self.colour.h + 60000 + hue_step * 1000, 1000, 1000);
    }

    /// Ninety units per second, a thirty-unit band, nine-tenths decay, and
    /// a first spawn and hue taken from the random draws.
    pub fn default() -> (r: RandomMovingPlaneEffect)
        ensures
            r.wf(),
            r.movement_speed == 90000,
            r.decay == 900,
            r.distance == 30000,
            r.colour.s == 1000 && r.colour.v == 1000,
            exists|y: int, phi: int|
                0 <= y <= HEIGHT && 0 <= phi <= TWO_PI_MILLI && r.pos == #[trigger] spawn_of(
                    30000,
                    y,
                    phi,
                ),
            r.normal == toward_centre_spec(r.pos),
            r.faded@.len() == 0,
    {
        let mut eff = RandomMovingPlaneEffect {
            pos: Vec3::new(0, 0, 0),
            normal: Vec3::new(0, 1000, 0),
            colour: Colour::white(),
            movement_speed: 90000,
            decay: 900,
            distance: 30000,
            faded: Vec::new(),
        };
        proof {
            assert(dot_spec(eff.normal, eff.normal) == 1000000);
        }
        let y = draw_range(HEIGHT);
        let phi = draw_range(TWO_PI_MILLI);
        let hue = draw_range(240);
        eff.respawn_at(y, phi, hue);
        proof {
            assert(eff.pos == spawn_of(30000, y as int, phi as int));
        }
        eff
    }

    /// The colour this effect gives the pixel at buffer index `i`: the
    /// plane's hue at full saturation and value inside the band; outside
    /// it, the fade target the last tick computed for that index — the
    /// pixel's own colour until the first tick has run. Nothing here
    /// depends on the pixel's current colour channel being fresh, so a
    /// repeated render reproduces the same buffer.
    pub open spec fn render_one(self, p: Pixel, i: int) -> Colour {
        if self.lit(p) {
            Colour { h: self.colour.h, s: 1000i64, v: 1000i64 }
        } else if 0 <= i < self.faded@.len() {
            Colour { h: p.colour.h, s: p.colour.s, v: self.faded@[i] }
        } else {
            p.colour
        }
    }

    pub fn render(&self, pixels: &mut Vec<Pixel>)
        requires
            self.wf(),
            pixels_wf(old(pixels)@),
        ensures
            same_positions(old(pixels)@, final(pixels)@),
            forall|i: int|
                0 <= i < old(pixels)@.len() ==> #[trigger] final(pixels)@[i].colour
                    == self.render_one(old(pixels)@[i], i),
            pixels_wf(final(pixels)@),
    {
        let n = pixels.len();
        let mut i: usize = 0;
        while i < n
            invariant
                self.wf(),
                pixels_wf(old(pixels)@),
                n == pixels@.len(),
                i <= n,
                same_positions(old(pixels)@, pixels@),
                forall|j: int|
                    0 <= j < i ==> #[trigger] pixels@[j].colour == self.render_one(
                        old(pixels)@[j],
                        j,
                    ),
                forall|j: int| 0 <= j < i ==> #[trigger] pixels@[j].wf(),
                forall|j: int| i <= j < n ==> #[trigger] pixels@[j] == old(pixels)@[j],
            decreases n - i,
        {
            proof {
                assert(old(pixels)@[i as int].wf());
            }
            let p = pixels[i];
            let d = abs_distance(self.pos, self.normal, p.position);
            let colour = if d < self.distance {
                Colour { h: self.colour.h, s: 1000, v: 1000 }
            } else if i < self.faded.len() {
                Colour { h: p.colour.h, s: p.colour.s, v: self.faded[i] }
            } else {
                p.colour
            };
            pixels[i] = Pixel { colour, position: p.position };
            i = i + 1;
        }
    }

    /// What one tick does: the fade targets are recomputed from the buffer
    /// snapshot — this is where the decay happens, once per tick — and the
    /// plane advances along its normal; once past the centre with no pixel
    /// still lit, it respawns on the bounding cylinder aimed at the
    /// centre, with a fresh hue sixty to three hundred degrees onward.
    pub open spec fn update_rel(pre: Self, post: Self, delta: int, pixels: Seq<Pixel>) -> bool {
        let moved = pre.moved(delta);
        &&& post.faded@ == faded_of(pre.decay, pixels)
        &&& post.movement_speed == pre.movement_speed
        &&& post.decay == pre.decay
        &&& post.distance == pre.distance
        &&& if moved.passed_centre() && !moved.any_lit(pixels) {
            &&& exists|y: int, phi: int|
                0 <= y <= HEIGHT && 0 <= phi <= TWO_PI_MILLI && post.pos == #[trigger] spawn_of(
                    pre.distance,
                    y,
                    phi,
                )
            &&& post.normal == toward_centre_spec(post.pos)
            &&& post.colour.s == 1000
            &&& post.colour.v == 1000
            &&& exists|k: int|
                60 <= k <= 300 && post.colour.h == #[trigger] crate::colour::shifted_hue(
                    pre.colour.h as int,
                    k,
                )
        } else {
            &&& post.pos == moved.pos
            &&& post.normal == pre.normal
            &&& post.colour == pre.colour
        }
    }

    pub fn update(&mut self, delta: i64, pixels: &Vec<Pixel>)
        requires
            old(self).wf(),
            0 <= delta <= 10000,
            pixels_wf(pixels@),
        ensures
            final(self).wf(),
            Self::update_rel(*old(self), *final(self), delta as int, pixels@),
    {
        let n = pixels.len();
        let mut fade: Vec<i64> = Vec::new();
        let mut i: usize = 0;
        while i < n
            invariant
                *self == *old(self),
                old(self).wf(),
                pixels_wf(pixels@),
                n == pixels@.len(),
                i <= n,
                fade@.len() == i,
                forall|j: int|
                    0 <= j < i ==> #[trigger] fade@[j] == faded_value(
                        old(self).decay,
                        pixels@[j].colour.v,
                    ) && 0 <= fade@[j] <= 1000,
            decreases n - i,
        {
            proof {
                assert(pixels@[i as int].wf());
                crate::fixed::lemma_mul_le(
                    pixels@[i as int].colour.v as int,
                    self.decay as int,
                    1000,
                    1000,
                );
                vstd::arithmetic::div_mod::lemma_div_pos_is_pos(
                    pixels@[i as int].colour.v as int * self.decay as int,
                    1000,
                );
                vstd::arithmetic::div_mod::lemma_div_is_ordered(
                    pixels@[i as int].colour.v as int * self.decay as int,
                    1000000,
                    1000,
                );
            }
            let p = pixels[i];
            let mut dv = p.colour.v * self.decay / 1000;
            if dv < 100 {
                dv = 0;
            }
            fade.push(dv);
            i = i + 1;
        }
        proof {
            assert(fade@ =~= faded_of(old(self).decay, pixels@));
        }
        self.faded = fade;

        proof {
            crate::fixed::lemma_mul_le(
                self.movement_speed as int,
                delta as int,
                1000000,
                10000,
            );
        }
        let mv = div_trunc(self.movement_speed * delta, 1000);
        proof {
            crate::fixed::lemma_abs_mul_le(self.normal.x as int, mv as int, 1000, 10000000000);
            crate::fixed::lemma_abs_mul_le(self.normal.y as int, mv as int, 1000, 10000000000);
            crate::fixed::lemma_abs_mul_le(self.normal.z as int, mv as int, 1000, 10000000000);
        }
        let nx = clamp_i64(
            self.pos.x + div_trunc(self.normal.x * mv, 1000),
            -FIELD_LIMIT,
            FIELD_LIMIT,
        );
        let ny = clamp_i64(
            self.pos.y + div_trunc(self.normal.y * mv, 1000),
            -FIELD_LIMIT,
            FIELD_LIMIT,
        );
        let nz = clamp_i64(
            self.pos.z + div_trunc(self.normal.z * mv, 1000),
            -FIELD_LIMIT,
            FIELD_LIMIT,
        );
        self.pos = Vec3::new(nx, ny, nz);
        let ghost moved = old(self).moved(delta as int);
        proof {
            assert(self.pos == moved.pos);
        }
        let direction = Vec3::sub(centre(), self.pos);
        if Vec3::dot(self.normal, direction) < 0 {
            let mut hit = false;
            let mut k: usize = 0;
            while k < n
                invariant
                    self.wf(),
                    self.pos == moved.pos,
                    self.normal == moved.normal,
                    self.distance == moved.distance,
                    pixels_wf(pixels@),
                    n == pixels@.len(),
                    k <= n,
                    hit <==> exists|j: int| 0 <= j < k && moved.lit(#[trigger] pixels@[j]),
                decreases n - k,
            {
                proof {
                    assert(pixels@[k as int].wf());
                }
                let d = abs_distance(self.pos, self.normal, pixels[k].position);
                if d < self.distance {
                    hit = true;
                }
                k = k + 1;
            }
            if !hit {
                let y = draw_range(HEIGHT);
                let phi = draw_range(TWO_PI_MILLI);
                let hue = draw_range(240);
                self.respawn_at(y, phi, hue);
                proof {
                    let kk = 60 + hue as int;
                    assert(60 <= kk <= 300 && self.colour.h == crate::colour::shifted_hue(
                        old(self).colour.h as int,
                        kk,
                    ));
                    assert(self.pos == spawn_of(self.distance, y as int, phi as int));
                }
            }
        }
    }

    /// What one parameter edit does: `K`/`k` and `J`/`j` step the advance
    /// speed by ten or five units per second within `[0, 1000]`; `n`/`m`
    /// step the decay by a hundredth within `[0, 1]`; the arrow keys step
    /// the band's half-thickness by one unit within `[1, 200]`.
    pub open spec fn input_rel(pre: Self, post: Self, key: KeyInput) -> bool {
        &&& key == KeyInput::Char('K') ==> post == (RandomMovingPlaneEffect {
            movement_speed: clamp_spec(pre.movement_speed + 10000, 0, 1000000) as i64,
            ..pre
        })
        &&& key == KeyInput::Char('k') ==> post == (RandomMovingPlaneEffect {
            movement_speed: clamp_spec(pre.movement_speed + 5000, 0, 1000000) as i64,
            ..pre
        })
        &&& key == KeyInput::Char('J') ==> post == (RandomMovingPlaneEffect {
            movement_speed: clamp_spec(pre.movement_speed - 10000, 0, 1000000) as i64,
            ..pre
        })
        &&& key == KeyInput::Char('j') ==> post == (RandomMovingPlaneEffect {
            movement_speed: clamp_spec(pre.movement_speed - 5000, 0, 1000000) as i64,
            ..pre
        })
        &&& key == KeyInput::Char('n') ==> post == (RandomMovingPlaneEffect {
            decay: clamp_spec(pre.decay - 10, 0, 1000) as i64,
            ..pre
        })
        &&& key == KeyInput::Char('m') ==> post == (RandomMovingPlaneEffect {
            decay: clamp_spec(pre.decay + 10, 0, 1000) as i64,
            ..pre
        })
        &&& key == KeyInput::Up ==> post == (RandomMovingPlaneEffect {
            distance: clamp_spec(pre.distance + 1000, 1000, 200000) as i64,
            ..pre
        })
        &&& key == KeyInput::Down ==> post == (RandomMovingPlaneEffect {
            distance: clamp_spec(pre.distance - 1000, 1000, 200000) as i64,
            ..pre
        })
        &&& !(key == KeyInput::Char('K') || key == KeyInput::Char('k') || key == KeyInput::Char(
            'J',
        ) || key == KeyInput::Char('j') || key == KeyInput::Char('n') || key == KeyInput::Char(
            'm',
        ) || key == KeyInput::Up || key == KeyInput::Down) ==> post == pre
    }

    pub fn handle_input(&mut self, key: KeyInput)
        requires
            old(self).wf(),
        ensures
            final(self).wf(),
            Self::input_rel(*old(self), *final(self), key),
    {
        match key {
            KeyInput::Char('K') => {
                self.movement_speed = clamp_i64(self.movement_speed + 10000, 0, 1000000);
            },
            KeyInput::Char('k') => {
                self.movement_speed = clamp_i64(self.movement_speed + 5000, 0, 1000000);
            },
            KeyInput::Char('J') => {
                self.movement_speed = clamp_i64(self.movement_speed - 10000, 0, 1000000);
            },
            KeyInput::Char('j') => {
                self.movement_speed = clamp_i64(self.movement_speed - 5000, 0, 1000000);
            },
            KeyInput::Char('n') => {
                self.decay = clamp_i64(self.decay - 10, 0, 1000);
            },
            KeyInput::Char('m') => {
                self.decay = clamp_i64(self.decay + 10, 0, 1000);
            },
            KeyInput::Up => {
                self.distance = clamp_i64(self.distance + 1000, 1000, 200000);
            },
            KeyInput::Down => {
                self.distance = clamp_i64(self.distance - 1000, 1000, 200000);
            },
            _ => {},
        }
    }
}

/// The centre of the fixture.
pub fn centre() -> (r: Vec3)
    ensures
        r == centre_spec(),
{
    Vec3::new(0, 205000, 0)
}

/// The unit direction from `pos` toward the fixture's centre, falling back
/// to straight up when the direction is degenerate.
pub fn toward_centre(pos: Vec3) -> (r: Vec3)
    requires
        in_field(pos),
    ensures
        r == toward_centre_spec(pos),
        unit_normal(r),
{
    let d = Vec3::sub(centre(), pos);
    let up = Vec3::new(0, 1000, 0);
    proof {
        assert(dot_spec(up, up) == 1000000);
    }
    if Vec3::mag_squared(d) <= 0 {
        up
    } else {
        let n = Vec3::norm(d);
        if n.x == 0 && n.y == 0 && n.z == 0 {
            up
        } else {
            proof {
                lemma_nonzero_bounded_is_unit(n);
            }
            n
        }
    }
}

/// A vector with a non-zero component has a positive product sum with
/// itself.
proof fn lemma_nonzero_bounded_is_unit(n: Vec3)
    requires
        !(n.x == 0 && n.y == 0 && n.z == 0),
    ensures
        dot_spec(n, n) > 0,
{
    assert(dot_spec(n, n) > 0) by (nonlinear_arith)
        requires
            !(n.x == 0 && n.y == 0 && n.z == 0),
            dot_spec(n, n) == n.x * n.x + n.y * n.y + n.z * n.z,
    ;
}

/// A uniform-ish draw from `[0, bound]`, for a non-negative bound below
/// the `u32` range.
pub fn draw_range(bound: i64) -> (r: i64)
    requires
        0 <= bound < 4294967295,
    ensures
        0 <= r <= bound,
{
    let raw: u32 = rand::random::<u32>();
    (raw % ((bound + 1) as u32)) as i64
}

} // verus!
