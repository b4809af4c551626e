//! The pixel controller: owns the pixel buffer, the active effect and the
//! global brightness; runs one animation tick and serializes the buffer
//! for the frame sink.

use vstd::prelude::*;

use crate::colour::{rgb_spec, Colour};
use crate::effect::effect_list::{cycle_id, Effect};
use crate::fixed::clamp_i64;
use crate::layout::{layout_entries, parse_layout, parse_layout_line_spec};
use crate::pixel::{pixels_wf, same_positions, Pixel};
use crate::vec3::{in_scene, Vec3};

verus! {

/// A colour dimmed for transmission: its value channel scaled by the
/// brightness, the stored colour untouched.
pub open spec fn scaled_colour(c: Colour, b: i64) -> Colour {
    Colour { v: (c.v * b / 1000) as i64, ..c }
}

/// A buffer dimmed for transmission, pixel by pixel.
pub open spec fn scaled_pixels(pixels: Seq<Pixel>, b: i64) -> Seq<Pixel> {
    pixels.map_values(|p: Pixel| Pixel { colour: scaled_colour(p.colour, b), ..p })
}

/// The byte sequence a buffer transmits at a given brightness: three bytes
/// per pixel in buffer order, each the RGB conversion of the dimmed colour.
pub open spec fn frame_spec(pixels: Seq<Pixel>, b: i64) -> Seq<u8> {
    Seq::new(
        (3 * pixels.len()) as nat,
        |k: int|
            {
                let c = scaled_colour(pixels[k / 3].colour, b);
                (if k % 3 == 0 {
                    rgb_spec(c).0
                } else if k % 3 == 1 {
                    rgb_spec(c).1
                } else {
                    rgb_spec(c).2
                }) as u8
            },
    )
}

/// The position pixel `i` ends with after the layout records are applied
/// in order; later records win, and a pixel no record names keeps `dflt`.
pub open spec fn layout_position(entries: Seq<(usize, Vec3)>, i: int, dflt: Vec3) -> Vec3
    decreases entries.len(),
{
    if entries.len() == 0 {
        dflt
    } else if entries.last().0 == i {
        entries.last().1
    } else {
        layout_position(entries.drop_last(), i, dflt)
    }
}

pub struct PixelController {
    pub pixels: Vec<Pixel>,
    pub effect: Effect,
    /// Global brightness in milli-units, `[0, 1000]`.
    pub max_brightness: i64,
}

impl PixelController {
    pub open spec fn wf(self) -> bool {
        &&& pixels_wf(self.pixels@)
        &&& self.effect.wf()
        &&& 0 <= self.max_brightness <= 1000
    }

    /// A buffer of `num_pixels` black pixels at the origin, the first
    /// effect of the cycle, and one-fifth brightness.
    pub fn new(num_pixels: usize) -> (r: PixelController)
        ensures
            r.wf(),
            r.pixels@.len() == num_pixels,
            forall|i: int|
                0 <= i < num_pixels ==> #[trigger] r.pixels@[i] == (Pixel {
                    colour: Colour { h: 0i64, s: 0i64, v: 0i64 },
                    position: Vec3 { x: 0i64, y: 0i64, z: 0i64 },
                }),
            r.effect.id_spec() == 0 && r.effect.default_state(),
            r.max_brightness == 200,
    {
        let mut pixels: Vec<Pixel> = Vec::new();
        let black = Pixel { colour: Colour::black(), position: Vec3::new(0, 0, 0) };
        let mut i: usize = 0;
        while i < num_pixels
            invariant
                i <= num_pixels,
                pixels@.len() == i,
                forall|j: int| 0 <= j < i ==> #[trigger] pixels@[j] == black,
                black == (Pixel {
                    colour: Colour { h: 0i64, s: 0i64, v: 0i64 },
                    position: Vec3 { x: 0i64, y: 0i64, z: 0i64 },
                }),
            decreases num_pixels - i,
        {
            pixels.push(black);
            i = i + 1;
        }
        PixelController { pixels, effect: Effect::id_to_effect(0), max_brightness: 200 }
    }

    pub fn get_num_pixels(&self) -> (r: usize)
        ensures
            r == self.pixels@.len(),
    {
        self.pixels.len()
    }

    pub fn get_current_effect(&self) -> (r: &Effect)
        ensures
            *r == self.effect,
    {
        &self.effect
    }

    /// Borrow the active effect for a parameter edit.
    pub fn get_current_effect_mut(&mut self) -> (r: &mut Effect)
        ensures
            *r == old(self).effect,
            *final(self) == (PixelController { effect: *final(r), ..*old(self) }),
    {
        &mut self.effect
    }

    pub fn increase_brightness(&mut self)
        requires
            old(self).wf(),
        ensures
            *final(self) == (PixelController {
                max_brightness: crate::fixed::clamp_spec(
                    old(self).max_brightness + 50,
                    0,
                    1000,
                ) as i64,
                ..*old(self)
            }),
            final(self).wf(),
    {
        self.max_brightness = clamp_i64(self.max_brightness + 50, 0, 1000);
    }

    pub fn decrease_brightness(&mut self)
        requires
            old(self).wf(),
        ensures
            *final(self) == (PixelController {
                max_brightness: crate::fixed::clamp_spec(
                    old(self).max_brightness - 50,
                    0,
                    1000,
                ) as i64,
                ..*old(self)
            }),
            final(self).wf(),
    {
        self.max_brightness = clamp_i64(self.max_brightness - 50, 0, 1000);
    }

    pub fn get_brightness(&self) -> (r: i64)
        ensures
            r == self.max_brightness,
    {
        self.max_brightness
    }

    /// Switch to the next effect of the cycle, reset to its defaults.
    pub fn next_effect(&mut self)
        requires
            old(self).wf(),
        ensures
            final(self).wf(),
            final(self).effect.id_spec() == cycle_id(old(self).effect.id_spec(), 1),
            final(self).effect.default_state(),
            final(self).pixels == old(self).pixels,
            final(self).max_brightness == old(self).max_brightness,
    {
        self.effect.change_effect(1);
    }

    /// Switch to the previous effect of the cycle, reset to its defaults.
    pub fn prev_effect(&mut self)
        requires
            old(self).wf(),
        ensures
            final(self).wf(),
            final(self).effect.id_spec() == cycle_id(old(self).effect.id_spec(), -1),
            final(self).effect.default_state(),
            final(self).pixels == old(self).pixels,
            final(self).max_brightness == old(self).max_brightness,
    {
        self.effect.change_effect(-1);
    }

    /// Route a parameter edit to the active effect.
    pub fn handle_input(&mut self, key: crate::input::KeyInput)
        requires
            old(self).wf(),
        ensures
            final(self).wf(),
            Effect::input_rel(old(self).effect, final(self).effect, key),
            final(self).pixels == old(self).pixels,
            final(self).max_brightness == old(self).max_brightness,
    {
        self.effect.handle_input(key);
    }

    /// One animation tick: render the current frame into the buffer, then
    /// let the effect advance its own clock over the rendered buffer. A
    /// concurrent reader thus always sees the colours of the frame the
    /// effect had already produced.
    pub fn update(&mut self, delta: i64)
        requires
            old(self).wf(),
            0 <= delta <= 10000,
        ensures
            final(self).wf(),
            same_positions(old(self).pixels@, final(self).pixels@),
            forall|i: int|
                0 <= i < old(self).pixels@.len() ==> #[trigger] final(self).pixels@[i].colour
                    == old(self).effect.render_one(old(self).pixels@[i], i),
            Effect::update_rel(
                old(self).effect,
                final(self).effect,
                delta as int,
                final(self).pixels@,
            ),
            final(self).effect.id_spec() == old(self).effect.id_spec(),
            final(self).max_brightness == old(self).max_brightness,
    {
        self.effect.render(&mut self.pixels);
        self.effect.update(delta, &self.pixels);
    }

    /// Serialize the buffer for the frame sink: three bytes per pixel, the
    /// stored colour dimmed by the global brightness at conversion time
    /// only. The result always holds exactly three bytes per pixel.
    pub fn to_frame_bytes(&self) -> (r: Vec<u8>)
        requires
            self.wf(),
        ensures
            r@ == frame_spec(self.pixels@, self.max_brightness),
            r@.len() == 3 * self.pixels@.len(),
    {
        let n = self.pixels.len();
        let mut out: Vec<u8> = Vec::new();
        let ghost target = frame_spec(self.pixels@, self.max_brightness);
        let mut i: usize = 0;
        while i < n
            invariant
                self.wf(),
                n == self.pixels@.len(),
                i <= n,
                target == frame_spec(self.pixels@, self.max_brightness),
                out@.len() == 3 * i,
                forall|k: int| 0 <= k < 3 * i ==> #[trigger] out@[k] == target[k],
            decreases n - i,
        {
            proof {
                assert(self.pixels@[i as int].wf());
                lemma_scaled_colour_wf(self.pixels@[i as int].colour, self.max_brightness);
            }
            let p = self.pixels[i];
            let v = p.colour.v * self.max_brightness / 1000;
            let c = Colour { h: p.colour.h, s: p.colour.s, v };
            let (red, green, blue) = Colour::to_rgb(&c);
            out.push(red);
            out.push(green);
            out.push(blue);
            proof {
                vstd::arithmetic::div_mod::lemma_fundamental_div_mod_converse(
                    3 * i as int,
                    3,
                    i as int,
                    0,
                );
                vstd::arithmetic::div_mod::lemma_fundamental_div_mod_converse(
                    3 * i as int + 1,
                    3,
                    i as int,
                    1,
                );
                vstd::arithmetic::div_mod::lemma_fundamental_div_mod_converse(
                    3 * i as int + 2,
                    3,
                    i as int,
                    2,
                );
            }
            i = i + 1;
        }
        proof {
            assert(out@ =~= target);
        }
        out
    }

    /// Apply layout records to the buffer: each record places the pixel it
    /// names; later records win. A record naming a pixel the buffer does
    /// not have, or a position outside the scene box, is a configuration
    /// error: the buffer is left untouched and the offending record's
    /// index is returned.
    pub fn apply_layout(&mut self, entries: &Vec<(usize, Vec3)>) -> (r: Result<(), usize>)
        requires
            old(self).wf(),
        ensures
            final(self).wf(),
            r is Ok <==> (forall|j: int|
                0 <= j < entries@.len() ==> (#[trigger] entries@[j]).0 < old(
                    self,
                ).pixels@.len() && in_scene(entries@[j].1)),
            r is Ok ==> {
                &&& final(self).pixels@.len() == old(self).pixels@.len()
                &&& forall|i: int|
                    0 <= i < old(self).pixels@.len() ==> #[trigger] final(self).pixels@[i]
                        == (Pixel {
                        position: layout_position(entries@, i, old(self).pixels@[i].position),
                        colour: old(self).pixels@[i].colour,
                    })
                &&& final(self).effect == old(self).effect
                &&& final(self).max_brightness == old(self).max_brightness
            },
            r matches Err(bad) ==> *final(self) == *old(self) && bad < entries@.len() && !(
            entries@[bad as int].0 < old(self).pixels@.len() && in_scene(entries@[bad as int].1)),
    {
        let n = entries.len();
        let len = self.pixels.len();
        let mut j: usize = 0;
        while j < n
            invariant
                n == entries@.len(),
                len == self.pixels@.len(),
                j <= n,
                *self == *old(self),
                old(self).wf(),
                forall|m: int|
                    0 <= m < j ==> (#[trigger] entries@[m]).0 < len && in_scene(entries@[m].1),
            decreases n - j,
        {
            let (idx, pos) = entries[j];
            if idx >= len {
                return Err(j);
            }
            if !(-1000000 <= pos.x && pos.x <= 1000000 && -1000000 <= pos.y && pos.y <= 1000000
                && -1000000 <= pos.z && pos.z <= 1000000) {
                return Err(j);
            }
            j = j + 1;
        }
        let mut k: usize = 0;
        while k < n
            invariant
                n == entries@.len(),
                self.pixels@.len() == len == old(self).pixels@.len(),
                k <= n,
                self.effect == old(self).effect,
                self.max_brightness == old(self).max_brightness,
                old(self).wf(),
                forall|m: int|
                    0 <= m < n ==> (#[trigger] entries@[m]).0 < len && in_scene(entries@[m].1),
                forall|i: int|
                    0 <= i < len ==> #[trigger] self.pixels@[i] == (Pixel {
                        position: layout_position(
                            entries@.take(k as int),
                            i,
                            old(self).pixels@[i].position,
                        ),
                        colour: old(self).pixels@[i].colour,
                    }),
            decreases n - k,
        {
            proof {
                assert(entries@.take(k + 1).drop_last() =~= entries@.take(k as int));
                assert(entries@.take(k + 1).last() == entries@[k as int]);
            }
            let (idx, pos) = entries[k];
            let colour = self.pixels[idx].colour;
            self.pixels[idx] = Pixel { colour, position: pos };
            k = k + 1;
        }
        proof {
            assert(entries@.take(n as int) =~= entries@);
            assert forall|i: int| 0 <= i < len implies #[trigger] final(self).pixels@[i].wf() by {
                assert(old(self).pixels@[i].wf());
                lemma_layout_position_scene(entries@, i, old(self).pixels@[i].position);
            }
        }
        Ok(())
    }

    /// Parse layout lines and apply the records they carry; lines of any
    /// other shape are ignored. A record naming a missing pixel, or a
    /// position outside the scene box, is a configuration error, reported
    /// without touching the buffer.
    pub fn load_layout(&mut self, lines: &Vec<Vec<u8>>) -> (r: Result<(), usize>)
        requires
            old(self).wf(),
        ensures
            final(self).wf(),
            ({
                let entries = layout_entries(lines@.map_values(|l: Vec<u8>| l@));
                &&& (r is Ok <==> (forall|j: int|
                    0 <= j < entries.len() ==> (#[trigger] entries[j]).0 < old(
                        self,
                    ).pixels@.len() && in_scene(entries[j].1)))
                &&& r is Ok ==> {
                    &&& final(self).pixels@.len() == old(self).pixels@.len()
                    &&& forall|i: int|
                        0 <= i < old(self).pixels@.len() ==> #[trigger] final(self).pixels@[i]
                            == (Pixel {
                            position: layout_position(entries, i, old(self).pixels@[i].position),
                            colour: old(self).pixels@[i].colour,
                        })
                    &&& final(self).effect == old(self).effect
                    &&& final(self).max_brightness == old(self).max_brightness
                }
                &&& r is Err ==> *final(self) == *old(self)
            }),
    {
        let entries = parse_layout(lines);
        let r = self.apply_layout(&entries);
        match r {
            Ok(()) => Ok(()),
            Err(j) => Err(j),
        }
    }
}

/// Dimming keeps a valid colour valid: the scaled value channel stays in
/// range and below the original.
pub proof fn lemma_scaled_colour_wf(c: Colour, b: i64)
    requires
        c.wf(),
        0 <= b <= 1000,
    ensures
        scaled_colour(c, b).wf(),
        0 <= c.v * b / 1000 <= c.v,
        c.v * b <= 1000000,
{
    crate::fixed::lemma_mul_le(c.v as int, b as int, 1000, 1000);
    assert(c.v * b <= c.v * 1000) by (nonlinear_arith)
        requires
            0 <= c.v,
            b <= 1000,
    ;
    vstd::arithmetic::div_mod::lemma_div_pos_is_pos(c.v * b, 1000);
    vstd::arithmetic::div_mod::lemma_div_is_ordered(c.v * b, c.v * 1000, 1000);
    vstd::arithmetic::div_mod::lemma_div_multiples_vanish(c.v as int, 1000);
    assert(c.v as int * 1000 == 1000 * c.v);
}

/// Every position the layout fold can produce is either a record's (in
/// scene) or the default (in scene).
proof fn lemma_layout_position_scene(entries: Seq<(usize, Vec3)>, i: int, dflt: Vec3)
    requires
        in_scene(dflt),
        forall|m: int| 0 <= m < entries.len() ==> in_scene((#[trigger] entries[m]).1),
    ensures
        in_scene(layout_position(entries, i, dflt)),
    decreases entries.len(),
{
    if entries.len() > 0 && entries.last().0 != i {
        lemma_layout_position_scene(entries.drop_last(), i, dflt);
    }
}

/// The serialized frame always holds exactly three bytes per pixel,
/// whatever the brightness and whatever the colours an effect has left in
/// the buffer; ticks and effect switches never resize the buffer, so this
/// holds across any sequence of them.
pub proof fn lemma_frame_length(pixels: Seq<Pixel>, b: i64)
    ensures
        frame_spec(pixels, b).len() == 3 * pixels.len(),
{
}

/// Dimming at full brightness then converting equals converting the dimmed
/// buffer at full brightness: the frame at brightness `b` is the frame of
/// the value-scaled buffer at brightness one.
pub proof fn lemma_brightness_factoring(pixels: Seq<Pixel>, b: i64)
    ensures
        frame_spec(pixels, b) == frame_spec(scaled_pixels(pixels, b), 1000),
{
    let left = frame_spec(pixels, b);
    let right = frame_spec(scaled_pixels(pixels, b), 1000);
    assert forall|k: int| 0 <= k < left.len() implies left[k] == right[k] by {
        vstd::arithmetic::div_mod::lemma_div_pos_is_pos(k, 3);
        vstd::arithmetic::div_mod::lemma_div_is_ordered(k, 3 * pixels.len() - 1, 3);
        vstd::arithmetic::div_mod::lemma_fundamental_div_mod(3 * pixels.len() as int, 3);
        assert(k / 3 < pixels.len()) by {
            if k / 3 >= pixels.len() {
                vstd::arithmetic::div_mod::lemma_fundamental_div_mod(k, 3);
                vstd::arithmetic::div_mod::lemma_mod_bound(k, 3);
                assert(k >= 3 * (k / 3)) by (nonlinear_arith)
                    requires
                        k == 3 * (k / 3) + k % 3,
                        k % 3 >= 0,
                ;
                assert(3 * (k / 3) >= 3 * pixels.len()) by (nonlinear_arith)
                    requires
                        k / 3 >= pixels.len(),
                ;
            }
        }
        let c = pixels[k / 3].colour;
        let inner = scaled_colour(c, b);
        vstd::arithmetic::div_mod::lemma_div_multiples_vanish(inner.v as int, 1000);
        assert(inner.v as int * 1000 == 1000 * inner.v);
        assert(scaled_colour(inner, 1000) == inner);
    }
    assert(left =~= right);
}

/// Brightness zero blacks the frame out: every byte is zero, whatever the
/// stored hues and saturations.
pub proof fn lemma_blackout(pixels: Seq<Pixel>)
    ensures
        forall|k: int|
            0 <= k < frame_spec(pixels, 0).len() ==> #[trigger] frame_spec(pixels, 0)[k] == 0,
{
    let f = frame_spec(pixels, 0);
    assert forall|k: int| 0 <= k < f.len() implies #[trigger] f[k] == 0 by {
        let c = pixels[k / 3].colour;
        assert(c.v * 0 == 0);
        vstd::arithmetic::div_mod::lemma_div_of0(1000);
        let d = scaled_colour(c, 0);
        assert(d.v == 0);
        assert(d.v * d.s == 0) by (nonlinear_arith)
            requires
                d.v == 0,
        ;
        assert(crate::colour::chroma_spec(d) == 0int / 1000);
        assert(0int * (60000 - crate::fixed::abs_spec(d.h as int % 120000 - 60000)) == 0);
        assert(crate::colour::xval_spec(d) == 0int / 60000);
        vstd::arithmetic::div_mod::lemma_div_of0(60000);
        assert(crate::colour::byte_spec(0) == 500int / 1000);
        assert(500int / 1000 == 0) by {
            vstd::arithmetic::div_mod::lemma_small_div_converse(500, 1000);
        }
    }
}

} // verus!
