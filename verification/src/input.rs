//! The library's own model of a key press.
//!
//! The terminal front end translates whatever its input library delivers
//! into this closed set before handing it to the effect and controller
//! logic, so every key-routing decision is made by verified code.

use vstd::prelude::*;

verus! {

#[derive(Clone, Copy, Debug, PartialEq, Eq, Structural)]
pub enum KeyInput {
    Char(char),
    Up,
    Down,
    Left,
    Right,
    /// Any key the logic does not react to.
    Other,
}

} // verus!
