//! The fixture's bounding box, in milli-units.

use vstd::prelude::*;

verus! {

pub const MIN_Y: i64 = 0;

pub const MAX_Y: i64 = 410000;

pub const HEIGHT: i64 = MAX_Y - MIN_Y;

pub const MIN_X: i64 = -90000;

pub const MAX_X: i64 = 90000;

pub const WIDTH: i64 = MAX_X - MIN_X;

pub const MIN_Z: i64 = -90000;

pub const MAX_Z: i64 = 90000;

pub const DEPTH: i64 = MAX_Z - MIN_Z;

} // verus!
