//! Persisted tunables.
//!
//! The store is a collaborator that keeps keyed decimal text per effect;
//! the library owns what is worth keeping, how a value is written, and
//! when a read value is accepted. A value that does not parse, or falls
//! outside its field's range, is ignored and the field keeps its previous
//! state; the rest of the entries still apply.

use vstd::prelude::*;

use crate::colour::Colour;
use crate::effect::effect_list::Effect;
use crate::effect::expanding_circle::ExpandingCircleEffect;
use crate::effect::moving_plane::MovingPlaneEffect;
use crate::effect::plane::PlaneEffect;
use crate::effect::rainbow_plane::RainbowPlaneEffect;
use crate::effect::random_moving_plane::RandomMovingPlaneEffect;
use crate::effect::solid_colour::SolidColourEffect;
use crate::led_controller::PixelController;
use crate::text::{format_fixed, format_fixed_spec, parse_fixed, parse_fixed_spec};

verus! {

#[derive(Clone, Copy, Debug, PartialEq, Eq, Structural)]
pub enum SettingKey {
    Hue,
    Saturation,
    Value,
    MovementSpeed,
    Decay,
    Distance,
    Multiplier,
    ExpansionSpeed,
    DistanceCoef,
    CurrentEffect,
    Brightness,
}

/// One persisted tunable: a key and its decimal text.
#[derive(Clone, Debug)]
pub struct SettingEntry {
    pub key: SettingKey,
    pub value: Vec<u8>,
}

/// What one entry does to an effect: a recognized key whose value parses
/// and fits its field's range sets that field; anything else changes
/// nothing.
pub open spec fn apply_setting_spec(e: Effect, key: SettingKey, value: Seq<u8>) -> Effect {
    match parse_fixed_spec(value) {
        Option::None => e,
        Option::Some(v) => match e {
            Effect::SolidColour(s) => {
                if key == SettingKey::Hue && 0 <= v < 360000 {
                    Effect::SolidColour(SolidColourEffect { colour: Colour { h: v, ..s.colour } })
                } else if key == SettingKey::Saturation && 0 <= v <= 1000 {
                    Effect::SolidColour(SolidColourEffect { colour: Colour { s: v, ..s.colour } })
                } else if key == SettingKey::Value && 0 <= v <= 1000 {
                    Effect::SolidColour(SolidColourEffect { colour: Colour { v, ..s.colour } })
                } else {
                    e
                }
            },
            Effect::Plane(p) => {
                if key == SettingKey::DistanceCoef && 0 < v <= 1000000 {
                    Effect::Plane(PlaneEffect { distance_coef: v, ..p })
                } else {
                    e
                }
            },
            Effect::MovingPlane(p) => {
                if key == SettingKey::MovementSpeed && 0 <= v <= 1000000 {
                    Effect::MovingPlane(MovingPlaneEffect { movement_speed: v, ..p })
                } else if key == SettingKey::DistanceCoef && 0 < v <= 1000000 {
                    Effect::MovingPlane(MovingPlaneEffect { distance_coef: v, ..p })
                } else {
                    e
                }
            },
            Effect::RainbowPlane(p) => {
                if key == SettingKey::MovementSpeed && 0 <= v <= 1000000 {
                    Effect::RainbowPlane(RainbowPlaneEffect { movement_speed: v, ..p })
                } else if key == SettingKey::Multiplier && 1000 <= v <= 10000 && v % 1000 == 0 {
                    Effect::RainbowPlane(RainbowPlaneEffect { multiplier: (v / 1000) as i64, ..p })
                } else {
                    e
                }
            },
            Effect::RandomMovingPlane(p) => {
                if key == SettingKey::MovementSpeed && 0 <= v <= 1000000 {
                    Effect::RandomMovingPlane(RandomMovingPlaneEffect { movement_speed: v, ..p })
                } else if key == SettingKey::Decay && 0 <= v <= 1000 {
                    Effect::RandomMovingPlane(RandomMovingPlaneEffect { decay: v, ..p })
                } else if key == SettingKey::Distance && 1000 <= v <= 200000 {
                    Effect::RandomMovingPlane(RandomMovingPlaneEffect { distance: v, ..p })
                } else {
                    e
                }
            },
            Effect::ExpandingCircle(c) => {
                if key == SettingKey::ExpansionSpeed && 0 <= v <= 1000000 {
                    Effect::ExpandingCircle(ExpandingCircleEffect { expansion_speed: v, ..c })
                } else {
                    e
                }
            },
        },
    }
}

/// The effect after a run of entries, applied in order.
pub open spec fn apply_settings_spec(e: Effect, entries: Seq<SettingEntry>) -> Effect
    decreases entries.len(),
{
    if entries.len() == 0 {
        e
    } else {
        apply_setting_spec(
            apply_settings_spec(e, entries.drop_last()),
            entries.last().key,
            entries.last().value@,
        )
    }
}

/// The brightness left after a run of controller entries: the last valid
/// brightness value, or the starting one.
pub open spec fn folded_brightness(b: i64, entries: Seq<SettingEntry>) -> i64
    decreases entries.len(),
{
    if entries.len() == 0 {
        b
    } else {
        let prev = folded_brightness(b, entries.drop_last());
        match parse_fixed_spec(entries.last().value@) {
            Option::Some(v) => if entries.last().key == SettingKey::Brightness && 0 <= v <= 1000 {
                v
            } else {
                prev
            },
            Option::None => prev,
        }
    }
}

/// The effect index selected by the last valid switch of a run of
/// controller entries, if any.
pub open spec fn folded_effect_id(entries: Seq<SettingEntry>) -> Option<int>
    decreases entries.len(),
{
    if entries.len() == 0 {
        Option::None
    } else {
        match parse_fixed_spec(entries.last().value@) {
            Option::Some(v) => if entries.last().key == SettingKey::CurrentEffect && 0 <= v <= 5000
                && v % 1000 == 0 {
                Option::Some(v / 1000)
            } else {
                folded_effect_id(entries.drop_last())
            },
            Option::None => folded_effect_id(entries.drop_last()),
        }
    }
}

impl Effect {
    /// The entries this variant persists: each tunable as decimal text.
    pub fn save_settings(&self) -> (r: Vec<SettingEntry>)
        requires
            self.wf(),
        ensures
            match *self {
                Effect::SolidColour(s) => r@.len() == 3 && r@[0].key == SettingKey::Hue
                    && r@[0].value@ == format_fixed_spec(s.colour.h as int) && r@[1].key
                    == SettingKey::Saturation && r@[1].value@ == format_fixed_spec(
                    s.colour.s as int,
                ) && r@[2].key == SettingKey::Value && r@[2].value@ == format_fixed_spec(
                    s.colour.v as int,
                ),
                Effect::Plane(p) => r@.len() == 1 && r@[0].key == SettingKey::DistanceCoef
                    && r@[0].value@ == format_fixed_spec(p.distance_coef as int),
                Effect::MovingPlane(p) => r@.len() == 2 && r@[0].key == SettingKey::MovementSpeed
                    && r@[0].value@ == format_fixed_spec(p.movement_speed as int) && r@[1].key
                    == SettingKey::DistanceCoef && r@[1].value@ == format_fixed_spec(
                    p.distance_coef as int,
                ),
                Effect::RainbowPlane(p) => r@.len() == 2 && r@[0].key == SettingKey::MovementSpeed
                    && r@[0].value@ == format_fixed_spec(p.movement_speed as int) && r@[1].key
                    == SettingKey::Multiplier && r@[1].value@ == format_fixed_spec(
                    p.multiplier * 1000,
                ),
                Effect::RandomMovingPlane(p) => r@.len() == 3 && r@[0].key
                    == SettingKey::MovementSpeed && r@[0].value@ == format_fixed_spec(
                    p.movement_speed as int,
                ) && r@[1].key == SettingKey::Decay && r@[1].value@ == format_fixed_spec(
                    p.decay as int,
                ) && r@[2].key == SettingKey::Distance && r@[2].value@ == format_fixed_spec(
                    p.distance as int,
                ),
                Effect::ExpandingCircle(c) => r@.len() == 1 && r@[0].key
                    == SettingKey::ExpansionSpeed && r@[0].value@ == format_fixed_spec(
                    c.expansion_speed as int,
                ),
            },
    {
        let mut out: Vec<SettingEntry> = Vec::new();
        match self {
            Effect::SolidColour(s) => {
                out.push(SettingEntry { key: SettingKey::Hue, value: format_fixed(s.colour.h) });
                out.push(
                    SettingEntry { key: SettingKey::Saturation, value: format_fixed(s.colour.s) },
                );
                out.push(SettingEntry { key: SettingKey::Value, value: format_fixed(s.colour.v) });
            },
            Effect::Plane(p) => {
                out.push(
                    SettingEntry {
                        key: SettingKey::DistanceCoef,
                        value: format_fixed(p.distance_coef),
                    },
                );
            },
            Effect::MovingPlane(p) => {
                out.push(
                    SettingEntry {
                        key: SettingKey::MovementSpeed,
                        value: format_fixed(p.movement_speed),
                    },
                );
                out.push(
                    SettingEntry {
                        key: SettingKey::DistanceCoef,
                        value: format_fixed(p.distance_coef),
                    },
                );
            },
            Effect::RainbowPlane(p) => {
                out.push(
                    SettingEntry {
                        key: SettingKey::MovementSpeed,
                        value: format_fixed(p.movement_speed),
                    },
                );
                out.push(
                    SettingEntry {
                        key: SettingKey::Multiplier,
                        value: format_fixed(p.multiplier * 1000),
                    },
                );
            },
            Effect::RandomMovingPlane(p) => {
                out.push(
                    SettingEntry {
                        key: SettingKey::MovementSpeed,
                        value: format_fixed(p.movement_speed),
                    },
                );
                out.push(SettingEntry { key: SettingKey::Decay, value: format_fixed(p.decay) });
                out.push(
                    SettingEntry { key: SettingKey::Distance, value: format_fixed(p.distance) },
                );
            },
            Effect::ExpandingCircle(c) => {
                out.push(
                    SettingEntry {
                        key: SettingKey::ExpansionSpeed,
                        value: format_fixed(c.expansion_speed),
                    },
                );
            },
        }
        out
    }

    /// Apply one persisted entry; an unrecognized key, a value that does
    /// not parse, or one out of range leaves the effect as it was.
    pub fn apply_setting(&mut self, key: SettingKey, value: &[u8])
        requires
            old(self).wf(),
        ensures
            *final(self) == apply_setting_spec(*old(self), key, value@),
            final(self).wf(),
    {
        let parsed = parse_fixed(value);
        let v = match parsed {
            Some(v) => v,
            None => {
                return ;
            },
        };
        match self {
            Effect::SolidColour(s) => {
                if matches!(key, SettingKey::Hue) && 0 <= v && v < 360000 {
                    s.colour.h = v;
                } else if matches!(key, SettingKey::Saturation) && 0 <= v && v <= 1000 {
                    s.colour.s = v;
                } else if matches!(key, SettingKey::Value) && 0 <= v && v <= 1000 {
                    s.colour.v = v;
                }
            },
            Effect::Plane(p) => {
                if matches!(key, SettingKey::DistanceCoef) && 0 < v && v <= 1000000 {
                    p.distance_coef = v;
                }
            },
            Effect::MovingPlane(p) => {
                if matches!(key, SettingKey::MovementSpeed) && 0 <= v && v <= 1000000 {
                    p.movement_speed = v;
                } else if matches!(key, SettingKey::DistanceCoef) && 0 < v && v <= 1000000 {
                    p.distance_coef = v;
                }
            },
            Effect::RainbowPlane(p) => {
                if matches!(key, SettingKey::MovementSpeed) && 0 <= v && v <= 1000000 {
                    p.movement_speed = v;
                } else if matches!(key, SettingKey::Multiplier) && 1000 <= v && v <= 10000 && v
                    % 1000 == 0 {
                    p.multiplier = v / 1000;
                }
            },
            Effect::RandomMovingPlane(p) => {
                if matches!(key, SettingKey::MovementSpeed) && 0 <= v && v <= 1000000 {
                    p.movement_speed = v;
                } else if matches!(key, SettingKey::Decay) && 0 <= v && v <= 1000 {
                    p.decay = v;
                } else if matches!(key, SettingKey::Distance) && 1000 <= v && v <= 200000 {
                    p.distance = v;
                }
            },
            Effect::ExpandingCircle(c) => {
                if matches!(key, SettingKey::ExpansionSpeed) && 0 <= v && v <= 1000000 {
                    c.expansion_speed = v;
                }
            },
        }
    }

    /// Apply a run of persisted entries in order, each on its own a
    /// best-effort read.
    pub fn read_settings(&mut self, entries: &Vec<SettingEntry>)
        requires
            old(self).wf(),
        ensures
            *final(self) == apply_settings_spec(*old(self), entries@),
            final(self).wf(),
    {
        let n = entries.len();
        let mut i: usize = 0;
        while i < n
            invariant
                n == entries@.len(),
                i <= n,
                *self == apply_settings_spec(*old(self), entries@.take(i as int)),
                self.wf(),
            decreases n - i,
        {
            proof {
                assert(entries@.take(i + 1).drop_last() =~= entries@.take(i as int));
                assert(entries@.take(i + 1).last() == entries@[i as int]);
            }
            self.apply_setting(entries[i].key, entries[i].value.as_slice());
            i = i + 1;
        }
        proof {
            assert(entries@.take(n as int) =~= entries@);
        }
    }
}

impl PixelController {
    /// The controller's own persisted entries: the active effect's index
    /// and the global brightness.
    pub fn save_settings(&self) -> (r: Vec<SettingEntry>)
        requires
            self.wf(),
        ensures
            r@.len() == 2,
            r@[0].key == SettingKey::CurrentEffect,
            r@[0].value@ == format_fixed_spec(self.effect.id_spec() * 1000),
            r@[1].key == SettingKey::Brightness,
            r@[1].value@ == format_fixed_spec(self.max_brightness as int),
    {
        let mut out: Vec<SettingEntry> = Vec::new();
        let id = Effect::effect_to_id(&self.effect);
        out.push(SettingEntry { key: SettingKey::CurrentEffect, value: format_fixed(id * 1000) });
        out.push(SettingEntry { key: SettingKey::Brightness, value: format_fixed(self.max_brightness) });
        out
    }

    /// Apply one of the controller's own persisted entries: a valid
    /// brightness sets the brightness; a valid effect index switches to
    /// that variant's defaults; anything else changes nothing.
    pub fn apply_setting(&mut self, key: SettingKey, value: &[u8])
        requires
            old(self).wf(),
        ensures
            final(self).wf(),
            final(self).pixels == old(self).pixels,
            ({
                let parsed = parse_fixed_spec(value@);
                match parsed {
                    Option::None => *final(self) == *old(self),
                    Option::Some(v) => {
                        &&& (key == SettingKey::Brightness && 0 <= v <= 1000) ==> *final(self)
                            == (PixelController { max_brightness: v, ..*old(self) })
                        &&& (key == SettingKey::CurrentEffect && 0 <= v <= 5000 && v % 1000 == 0)
                            ==> final(self).max_brightness == old(self).max_brightness
                            && final(self).effect.id_spec() == v / 1000
                            && final(self).effect.default_state()
                        &&& !((key == SettingKey::Brightness && 0 <= v <= 1000) || (key
                            == SettingKey::CurrentEffect && 0 <= v <= 5000 && v % 1000 == 0))
                            ==> *final(self) == *old(self)
                    },
                }
            }),
    {
        let parsed = parse_fixed(value);
        let v = match parsed {
            Some(v) => v,
            None => {
                return ;
            },
        };
        if matches!(key, SettingKey::Brightness) && 0 <= v && v <= 1000 {
            self.max_brightness = v;
        } else if matches!(key, SettingKey::CurrentEffect) && 0 <= v && v <= 5000 && v % 1000
            == 0 {
            proof {
                vstd::arithmetic::div_mod::lemma_div_pos_is_pos(v as int, 1000);
                vstd::arithmetic::div_mod::lemma_div_is_ordered(v as int, 5000, 1000);
                vstd::arithmetic::div_mod::lemma_div_multiples_vanish(5, 1000);
                assert(5000int == 1000 * 5);
            }
            self.effect = Effect::default_effect(v / 1000);
        }
    }

    /// Apply the controller's persisted entries in order, each on its own
    /// a best-effort read: the brightness ends at the last valid value, and
    /// the effect at the defaults of the last validly selected index.
    pub fn read_settings(&mut self, entries: &Vec<SettingEntry>)
        requires
            old(self).wf(),
        ensures
            final(self).wf(),
            final(self).pixels == old(self).pixels,
            final(self).max_brightness == folded_brightness(old(self).max_brightness, entries@),
            match folded_effect_id(entries@) {
                Option::Some(id) => final(self).effect.id_spec() == id
                    && final(self).effect.default_state(),
                Option::None => final(self).effect == old(self).effect,
            },
    {
        let n = entries.len();
        let mut i: usize = 0;
        while i < n
            invariant
                n == entries@.len(),
                i <= n,
                self.wf(),
                self.pixels == old(self).pixels,
                self.max_brightness == folded_brightness(
                    old(self).max_brightness,
                    entries@.take(i as int),
                ),
                match folded_effect_id(entries@.take(i as int)) {
                    Option::Some(id) => self.effect.id_spec() == id
                        && self.effect.default_state(),
                    Option::None => self.effect == old(self).effect,
                },
            decreases n - i,
        {
            proof {
                assert(entries@.take(i + 1).drop_last() =~= entries@.take(i as int));
                assert(entries@.take(i + 1).last() == entries@[i as int]);
            }
            self.apply_setting(entries[i].key, entries[i].value.as_slice());
            i = i + 1;
        }
        proof {
            assert(entries@.take(n as int) =~= entries@);
        }
    }
}

} // verus!
