//! The closed, cyclic set of animation effects.
//!
//! Variants are selected by a stable index in `[0, NUM_EFFECTS)`; cycling
//! moves by an offset with wraparound and resets the destination variant to
//! its defaults.

use vstd::prelude::*;

use crate::colour::Colour;
use crate::effect::expanding_circle::ExpandingCircleEffect;
use crate::effect::moving_plane::MovingPlaneEffect;
use crate::effect::plane::PlaneEffect;
use crate::effect::rainbow_plane::RainbowPlaneEffect;
use crate::effect::random_moving_plane::RandomMovingPlaneEffect;
use crate::effect::solid_colour::SolidColourEffect;
use crate::fixed::wrap_mod;
use crate::input::KeyInput;
use crate::pixel::{pixels_wf, same_positions, Pixel};
use crate::vec3::Vec3;

verus! {

pub const NUM_EFFECTS: i64 = 6;

#[derive(Clone, Debug)]
pub enum Effect {
    SolidColour(SolidColourEffect),
    Plane(PlaneEffect),
    MovingPlane(MovingPlaneEffect),
    RainbowPlane(RainbowPlaneEffect),
    RandomMovingPlane(RandomMovingPlaneEffect),
    ExpandingCircle(ExpandingCircleEffect),
}

/// The index an offset lands on: plain modular arithmetic over the closed
/// variant set, a bijection for every offset.
pub open spec fn cycle_id(id: int, offset: int) -> int {
    (id + offset) % (NUM_EFFECTS as int)
}

impl Effect {
    pub open spec fn wf(self) -> bool {
        match self {
            Effect::SolidColour(e) => e.wf(),
            Effect::Plane(e) => e.wf(),
            Effect::MovingPlane(e) => e.wf(),
            Effect::RainbowPlane(e) => e.wf(),
            Effect::RandomMovingPlane(e) => e.wf(),
            Effect::ExpandingCircle(e) => e.wf(),
        }
    }

    /// The stable index of each variant.
    pub open spec fn id_spec(self) -> int {
        match self {
            Effect::SolidColour(_) => 0,
            Effect::Plane(_) => 1,
            Effect::MovingPlane(_) => 2,
            Effect::RainbowPlane(_) => 3,
            Effect::RandomMovingPlane(_) => 4,
            Effect::ExpandingCircle(_) => 5,
        }
    }

    /// The state a variant has right after a switch: its compiled-in
    /// defaults; the randomized variants additionally carry a random spawn
    /// point or hue, of which only the deterministic parts are stated.
    pub open spec fn default_state(self) -> bool {
        match self {
            Effect::SolidColour(e) => e.colour == (Colour { h: 180000i64, s: 1000i64, v: 1000i64 }),
            Effect::Plane(e) => e == (PlaneEffect {
                pos: Vec3 { x: 0i64, y: 30000i64, z: 0i64 },
                normal: Vec3 { x: 0i64, y: 1000i64, z: 0i64 },
                colour_a: Colour { h: 0i64, s: 0i64, v: 0i64 },
                colour_b: Colour { h: 0i64, s: 0i64, v: 1000i64 },
                distance_coef: 60000i64,
            }),
            Effect::MovingPlane(e) => e == (MovingPlaneEffect {
                pos: Vec3 { x: 0i64, y: 0i64, z: 0i64 },
                normal: Vec3 { x: 0i64, y: 1000i64, z: 0i64 },
                colour_a: Colour { h: 0i64, s: 0i64, v: 1000i64 },
                colour_b: Colour { h: 120000i64, s: 1000i64, v: 1000i64 },
                distance_coef: 60000i64,
                movement_speed: 1000i64,
            }),
            Effect::RainbowPlane(e) => e == (RainbowPlaneEffect {
                pos: Vec3 { x: 0i64, y: 0i64, z: 0i64 },
                multiplier: 1i64,
                movement_speed: 50000i64,
            }),
            Effect::RandomMovingPlane(e) => e.movement_speed == 90000 && e.decay == 900
                && e.distance == 30000 && e.colour.s == 1000 && e.colour.v == 1000
                && e.faded@.len() == 0,
            Effect::ExpandingCircle(e) => e.radius == 0 && e.expansion_speed == 50000
                && e.colour.s == 1000 && e.colour.v == 1000,
        }
    }

    /// The colour the active effect gives the pixel at buffer index `i`.
    pub open spec fn render_one(self, p: Pixel, i: int) -> Colour {
        match self {
            Effect::SolidColour(e) => e.render_one(p),
            Effect::Plane(e) => e.render_one(p),
            Effect::MovingPlane(e) => e.render_one(p),
            Effect::RainbowPlane(e) => e.render_one(p),
            Effect::RandomMovingPlane(e) => e.render_one(p, i),
            Effect::ExpandingCircle(e) => e.render_one(p),
        }
    }

    /// The display name of the active variant.
    pub fn to_string(&self) -> (r: &'static str)
        ensures
            self is SolidColour ==> r@ == "Solid Colour"@,
            self is Plane ==> r@ == "Stationary Plane"@,
            self is MovingPlane ==> r@ == "Moving Plane"@,
            self is RainbowPlane ==> r@ == "Rainbow Plane"@,
            self is RandomMovingPlane ==> r@ == "Rainbow Moving Plane"@,
            self is ExpandingCircle ==> r@ == "Expanding Circle"@,
    {
        match self {
            Effect::SolidColour(_) => "Solid Colour",
            Effect::Plane(_) => "Stationary Plane",
            Effect::MovingPlane(_) => "Moving Plane",
            Effect::RainbowPlane(_) => "Rainbow Plane",
            Effect::RandomMovingPlane(_) => "Rainbow Moving Plane",
            Effect::ExpandingCircle(_) => "Expanding Circle",
        }
    }

    pub fn effect_to_id(effect: &Effect) -> (r: i64)
        ensures
            r == effect.id_spec(),
            0 <= r < NUM_EFFECTS,
    {
        match effect {
            Effect::SolidColour(_) => 0,
            Effect::Plane(_) => 1,
            Effect::MovingPlane(_) => 2,
            Effect::RainbowPlane(_) => 3,
            Effect::RandomMovingPlane(_) => 4,
            Effect::ExpandingCircle(_) => 5,
        }
    }

    /// The default state of the variant with the given index. The index
    /// space is closed: callers stay inside it, so switching never fails.
    pub fn default_effect(effect_id: i64) -> (r: Effect)
        requires
            0 <= effect_id < NUM_EFFECTS,
        ensures
            r.id_spec() == effect_id,
            r.default_state(),
            r.wf(),
    {
        if effect_id == 0 {
            Effect::SolidColour(SolidColourEffect::default())
        } else if effect_id == 1 {
            Effect::Plane(PlaneEffect::default())
        } else if effect_id == 2 {
            Effect::MovingPlane(MovingPlaneEffect::default())
        } else if effect_id == 3 {
            Effect::RainbowPlane(RainbowPlaneEffect::default())
        } else if effect_id == 4 {
            Effect::RandomMovingPlane(RandomMovingPlaneEffect::default())
        } else {
            Effect::ExpandingCircle(ExpandingCircleEffect::default())
        }
    }

    /// The effect selected by index, in its default state; persisted
    /// settings, if any, are applied afterwards by the caller.
    pub fn id_to_effect(effect_id: i64) -> (r: Effect)
        requires
            0 <= effect_id < NUM_EFFECTS,
        ensures
            r.id_spec() == effect_id,
            r.default_state(),
            r.wf(),
    {
        Effect::default_effect(effect_id)
    }

    /// Move to the variant `offset` places onward in the cyclic order,
    /// resetting it to its defaults.
    pub fn change_effect(&mut self, offset: i64)
        requires
            -1000000 <= offset <= 1000000,
        ensures
            final(self).id_spec() == cycle_id(old(self).id_spec(), offset as int),
            final(self).default_state(),
            final(self).wf(),
    {
        let current_id = Effect::effect_to_id(self);
        let new_id = wrap_mod(current_id + offset, NUM_EFFECTS);
        *self = Effect::default_effect(new_id);
    }

    /// Write the active effect's colour field into every pixel.
    pub fn render(&self, pixels: &mut Vec<Pixel>)
        requires
            self.wf(),
            pixels_wf(old(pixels)@),
        ensures
            same_positions(old(pixels)@, final(pixels)@),
            forall|i: int|
                0 <= i < old(pixels)@.len() ==> #[trigger] final(pixels)@[i].colour
                    == self.render_one(old(pixels)@[i], i),
            pixels_wf(final(pixels)@),
    {
        match self {
            Effect::SolidColour(e) => {
                e.render(pixels);
                proof {
                    lemma_solid_render_wf(*e, old(pixels)@, pixels@);
                }
            },
            Effect::Plane(e) => e.render(pixels),
            Effect::MovingPlane(e) => e.render(pixels),
            Effect::RainbowPlane(e) => e.render(pixels),
            Effect::RandomMovingPlane(e) => e.render(pixels),
            Effect::ExpandingCircle(e) => e.render(pixels),
        }
    }

    /// What one tick does to the active effect: the variant never changes,
    /// and its state advances by its own tick relation.
    pub open spec fn update_rel(pre: Self, post: Self, delta: int, pixels: Seq<Pixel>) -> bool {
        match pre {
            Effect::SolidColour(e) => post == pre,
            Effect::Plane(e) => post == pre,
            Effect::MovingPlane(e) => post == Effect::MovingPlane(e.updated(delta)),
            Effect::RainbowPlane(e) => post == Effect::RainbowPlane(e.updated(delta)),
            Effect::RandomMovingPlane(e) => post matches Effect::RandomMovingPlane(ne)
                && RandomMovingPlaneEffect::update_rel(e, ne, delta, pixels),
            Effect::ExpandingCircle(e) => post matches Effect::ExpandingCircle(ne)
                && ExpandingCircleEffect::update_rel(e, ne, delta, pixels),
        }
    }

    /// Advance the active effect's own clock by `delta` fixed-point
    /// seconds.
    pub fn update(&mut self, delta: i64, pixels: &Vec<Pixel>)
        requires
            old(self).wf(),
            0 <= delta <= 10000,
            pixels_wf(pixels@),
        ensures
            final(self).wf(),
            final(self).id_spec() == old(self).id_spec(),
            Self::update_rel(*old(self), *final(self), delta as int, pixels@),
    {
        match self {
            Effect::SolidColour(e) => e.update(delta, pixels),
            Effect::Plane(e) => e.update(delta, pixels),
            Effect::MovingPlane(e) => e.update(delta, pixels),
            Effect::RainbowPlane(e) => e.update(delta, pixels),
            Effect::RandomMovingPlane(e) => e.update(delta, pixels),
            Effect::ExpandingCircle(e) => e.update(delta, pixels),
        }
    }

    /// What one key press does: `r` resets the active variant to its
    /// defaults; everything else is a parameter edit of the active variant.
    pub open spec fn input_rel(pre: Self, post: Self, key: KeyInput) -> bool {
        &&& post.id_spec() == pre.id_spec()
        &&& key == KeyInput::Char('r') ==> post.default_state()
        &&& key != KeyInput::Char('r') ==> match pre {
            Effect::SolidColour(e) => post matches Effect::SolidColour(ne)
                && SolidColourEffect::input_rel(e, ne, key),
            Effect::Plane(e) => post matches Effect::Plane(ne) && PlaneEffect::input_rel(
                e,
                ne,
                key,
            ),
            Effect::MovingPlane(e) => post matches Effect::MovingPlane(ne)
                && MovingPlaneEffect::input_rel(e, ne, key),
            Effect::RainbowPlane(e) => post matches Effect::RainbowPlane(ne)
                && RainbowPlaneEffect::input_rel(e, ne, key),
            Effect::RandomMovingPlane(e) => post matches Effect::RandomMovingPlane(ne)
                && RandomMovingPlaneEffect::input_rel(e, ne, key),
            Effect::ExpandingCircle(e) => post matches Effect::ExpandingCircle(ne)
                && ExpandingCircleEffect::input_rel(e, ne, key),
        }
    }

    /// Route one key press to the active variant.
    pub fn handle_input(&mut self, key: KeyInput)
        requires
            old(self).wf(),
        ensures
            final(self).wf(),
            Self::input_rel(*old(self), *final(self), key),
    {
        if matches!(key, KeyInput::Char('r')) {
            let id = Effect::effect_to_id(self);
            *self = Effect::default_effect(id);
        } else {
            match self {
                Effect::SolidColour(e) => e.handle_input(key),
                Effect::Plane(e) => e.handle_input(key),
                Effect::MovingPlane(e) => e.handle_input(key),
                Effect::RainbowPlane(e) => e.handle_input(key),
                Effect::RandomMovingPlane(e) => e.handle_input(key),
                Effect::ExpandingCircle(e) => e.handle_input(key),
            }
        }
    }
}

/// A solid render keeps the buffer well formed: every pixel keeps its
/// position and takes the effect's (valid) colour.
proof fn lemma_solid_render_wf(e: SolidColourEffect, pre: Seq<Pixel>, post: Seq<Pixel>)
    requires
        e.wf(),
        pixels_wf(pre),
        same_positions(pre, post),
        forall|i: int| 0 <= i < pre.len() ==> #[trigger] post[i].colour == e.render_one(pre[i]),
    ensures
        pixels_wf(post),
{
    assert forall|i: int| 0 <= i < post.len() implies #[trigger] post[i].wf() by {
        assert(pre[i].wf());
        assert(post[i].colour == e.colour);
        assert(post[i].position == pre[i].position);
    }
}

/// Rendering is idempotent between ticks: a pixel repainted by the same
/// effect state, without an intervening tick, keeps the colour the first
/// paint gave it — for every variant, including the fading trail, whose
/// fade targets are fixed at the tick.
pub proof fn lemma_render_idempotent(e: Effect, p: Pixel, i: int)
    ensures
        e.render_one(Pixel { colour: e.render_one(p, i), position: p.position }, i)
            == e.render_one(p, i),
{
    let once = e.render_one(p, i);
    let q = Pixel { colour: once, position: p.position };
    match e {
        Effect::SolidColour(_) => {},
        Effect::Plane(_) => {},
        Effect::MovingPlane(_) => {},
        Effect::RainbowPlane(_) => {},
        Effect::RandomMovingPlane(eff) => {
            assert(eff.lit(q) == eff.lit(p));
        },
        Effect::ExpandingCircle(eff) => {
            assert(eff.engulfed(q) == eff.engulfed(p));
        },
    }
}

/// Cycling is a bijection on the variant indices: any offset, followed by
/// its negation, returns to the index it started from.
pub proof fn lemma_cycle_roundtrip(id: int, k: int)
    requires
        0 <= id < NUM_EFFECTS,
    ensures
        cycle_id(cycle_id(id, k), -k) == id,
{
    let m = NUM_EFFECTS as int;
    let a = id + k;
    vstd::arithmetic::div_mod::lemma_mod_bound(a, m);
    vstd::arithmetic::div_mod::lemma_mod_twice(a, m);
    vstd::arithmetic::div_mod::lemma_add_mod_noop(a, -k, m);
    vstd::arithmetic::div_mod::lemma_add_mod_noop(a % m, -k, m);
    vstd::arithmetic::div_mod::lemma_small_mod(id as nat, m as nat);
}

/// The index reached by `k` cycling steps of the same offset.
pub open spec fn cycle_steps(id: int, offset: int, k: nat) -> int
    decreases k,
{
    if k == 0 {
        id
    } else {
        cycle_steps(cycle_id(id, offset), offset, (k - 1) as nat)
    }
}

/// Repeated steps of one offset amount to a single cycle by their sum.
pub proof fn lemma_cycle_steps_accumulate(id: int, offset: int, k: nat)
    requires
        0 <= id < NUM_EFFECTS,
    ensures
        cycle_steps(id, offset, k) == cycle_id(id, offset * k),
    decreases k,
{
    let m = NUM_EFFECTS as int;
    if k == 0 {
        assert(offset * 0 == 0) by (nonlinear_arith);
        vstd::arithmetic::div_mod::lemma_small_mod(id as nat, m as nat);
    } else {
        vstd::arithmetic::div_mod::lemma_mod_bound(id + offset, m);
        lemma_cycle_steps_accumulate(cycle_id(id, offset), offset, (k - 1) as nat);
        vstd::arithmetic::div_mod::lemma_mod_twice(id + offset, m);
        vstd::arithmetic::div_mod::lemma_add_mod_noop(id + offset, offset * ((k - 1) as nat), m);
        vstd::arithmetic::div_mod::lemma_add_mod_noop(
            (id + offset) % m,
            offset * ((k - 1) as nat),
            m,
        );
        assert(offset + offset * ((k - 1) as nat) == offset * k) by (nonlinear_arith)
            requires
                k >= 1,
        ;
    }
}

/// Any number of single steps forward, followed by as many single steps
/// back, restores the variant index it started from; so does the reverse
/// order.
pub proof fn lemma_cycle_steps_cancel(id: int, k: nat)
    requires
        0 <= id < NUM_EFFECTS,
    ensures
        cycle_steps(cycle_steps(id, 1, k), -1, k) == id,
        cycle_steps(cycle_steps(id, -1, k), 1, k) == id,
{
    let m = NUM_EFFECTS as int;
    lemma_cycle_steps_accumulate(id, 1, k);
    vstd::arithmetic::div_mod::lemma_mod_bound(id + k, m);
    lemma_cycle_steps_accumulate(cycle_id(id, k as int), -1, k);
    assert(1 * k == k as int) by (nonlinear_arith);
    assert((-1) * k == -(k as int)) by (nonlinear_arith);
    lemma_cycle_roundtrip(id, k as int);
    lemma_cycle_steps_accumulate(id, -1, k);
    vstd::arithmetic::div_mod::lemma_mod_bound(id - k, m);
    lemma_cycle_steps_accumulate(cycle_id(id, -(k as int)), 1, k);
    lemma_cycle_roundtrip(id, -(k as int));
}

} // verus!
