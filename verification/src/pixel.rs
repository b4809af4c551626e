//! The addressable unit of the fixture: a fixed position with a mutable
//! colour.

use vstd::prelude::*;

use crate::colour::Colour;
use crate::vec3::{in_scene, Vec3};

verus! {

#[derive(Clone, Copy, Debug, PartialEq, Eq, Structural)]
pub struct Pixel {
    pub colour: Colour,
    pub position: Vec3,
}

impl Pixel {
    /// A valid pixel: its colour is in range and its position inside the
    /// scene box.
    pub open spec fn wf(self) -> bool {
        &&& self.colour.wf()
        &&& in_scene(self.position)
    }
}

/// Every pixel of a buffer is valid.
pub open spec fn pixels_wf(pixels: Seq<Pixel>) -> bool {
    forall|i: int| 0 <= i < pixels.len() ==> #[trigger] pixels[i].wf()
}

/// Two buffers paint the same fixture: same length, same position at every
/// index.
pub open spec fn same_positions(a: Seq<Pixel>, b: Seq<Pixel>) -> bool {
    &&& a.len() == b.len()
    &&& forall|i: int| 0 <= i < a.len() ==> #[trigger] a[i].position == b[i].position
}

} // verus!
