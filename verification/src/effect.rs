//! The closed set of animation effects.

pub mod constants;
pub mod effect_list;
pub mod expanding_circle;
pub mod geometry;
pub mod moving_plane;
pub mod plane;
pub mod rainbow_plane;
pub mod random_moving_plane;
pub mod solid_colour;
