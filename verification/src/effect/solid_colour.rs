//! Paint every pixel one colour.

use vstd::prelude::*;

use crate::colour::Colour;
use crate::fixed::clamp_spec;
use crate::input::KeyInput;
use crate::pixel::{same_positions, Pixel};

verus! {

#[derive(Clone, Copy, Debug, PartialEq, Eq, Structural)]
pub struct SolidColourEffect {
    pub colour: Colour,
}

impl SolidColourEffect {
    pub open spec fn wf(self) -> bool {
        self.colour.wf()
    }

    pub fn default() -> (r: SolidColourEffect)
        ensures
            r.colour == (Colour { h: 180000i64, s: 1000i64, v: 1000i64 }),
            r.wf(),
    {
        SolidColourEffect { colour: Colour::cyan() }
    }

    /// The colour this effect gives a pixel: its own, everywhere.
    pub open spec fn render_one(self, p: Pixel) -> Colour {
        self.colour
    }

    /// Overwrite every pixel with the stored colour.
    pub fn render(&self, pixels: &mut Vec<Pixel>)
        ensures
            same_positions(old(pixels)@, final(pixels)@),
            forall|i: int|
                0 <= i < old(pixels)@.len() ==> #[trigger] final(pixels)@[i].colour
                    == self.render_one(old(pixels)@[i]),
    {
        let n = pixels.len();
        let mut i: usize = 0;
        while i < n
            invariant
                n == pixels@.len(),
                i <= n,
                same_positions(old(pixels)@, pixels@),
                forall|j: int|
                    0 <= j < i ==> #[trigger] pixels@[j].colour == self.render_one(
                        old(pixels)@[j],
                    ),
                forall|j: int| i <= j < n ==> #[trigger] pixels@[j] == old(pixels)@[j],
            decreases n - i,
        {
            let position = pixels[i].position;
            pixels[i] = Pixel { colour: self.colour, position };
            i = i + 1;
        }
    }

    /// Advancing time changes nothing for a solid colour.
    pub fn update(&mut self, delta_ms: i64, pixels: &Vec<Pixel>)
        ensures
            *final(self) == *old(self),
    {
    }

    /// What one parameter edit does: `h`/`H` step the hue by ten degrees
    /// around the circle, `s`/`S` and `v`/`V` step saturation and value by
    /// a twentieth, clamped; anything else is ignored.
    pub open spec fn input_rel(pre: Self, post: Self, key: KeyInput) -> bool {
        &&& key == KeyInput::Char('h') ==> post.colour == (Colour {
            h: ((pre.colour.h + 10000) % 360000) as i64,
            ..pre.colour
        })
        &&& key == KeyInput::Char('H') ==> post.colour == (Colour {
            h: ((pre.colour.h - 10000) % 360000) as i64,
            ..pre.colour
        })
        &&& key == KeyInput::Char('s') ==> post.colour == (Colour {
            s: clamp_spec(pre.colour.s + 50, 0, 1000) as i64,
            ..pre.colour
        })
        &&& key == KeyInput::Char('S') ==> post.colour == (Colour {
            s: clamp_spec(pre.colour.s - 50, 0, 1000) as i64,
            ..pre.colour
        })
        &&& key == KeyInput::Char('v') ==> post.colour == (Colour {
            v: clamp_spec(pre.colour.v + 50, 0, 1000) as i64,
            ..pre.colour
        })
        &&& key == KeyInput::Char('V') ==> post.colour == (Colour {
            v: clamp_spec(pre.colour.v - 50, 0, 1000) as i64,
            ..pre.colour
        })
        &&& !(key == KeyInput::Char('h') || key == KeyInput::Char('H') || key == KeyInput::Char(
            's',
        ) || key == KeyInput::Char('S') || key == KeyInput::Char('v') || key == KeyInput::Char(
            'V',
        )) ==> post == pre
    }

    pub fn handle_input(&mut self, key: KeyInput)
        requires
            old(self).wf(),
        ensures
            final(self).wf(),
            Self::input_rel(*old(self), *final(self), key),
    {
        match key {
            KeyInput::Char('h') => {
                self.colour.h = (self.colour.h + 10000) % 360000;
            },
            KeyInput::Char('H') => {
                self.colour.h = crate::fixed::wrap_mod(self.colour.h - 10000, 360000);
            },
            KeyInput::Char('s') => {
                self.colour.s = crate::fixed::clamp_i64(self.colour.s + 50, 0, 1000);
            },
            KeyInput::Char('S') => {
                self.colour.s = crate::fixed::clamp_i64(self.colour.s - 50, 0, 1000);
            },
            KeyInput::Char('v') => {
                self.colour.v = crate::fixed::clamp_i64(self.colour.v + 50, 0, 1000);
            },
            KeyInput::Char('V') => {
                self.colour.v = crate::fixed::clamp_i64(self.colour.v - 50, 0, 1000);
            },
            _ => {},
        }
    }
}

} // verus!
