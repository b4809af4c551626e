//! Verified core of an addressable-LED animation engine.
//!
//! The library models colours, 3D pixel positions and effect state in
//! fixed-point arithmetic: one unit of distance, hue (degrees), saturation,
//! value or time (seconds) is 1000 in the stored integer. All animation
//! logic — colour conversion, plane-sweep geometry, the effect state
//! machine, the pixel controller and the worker-loop decisions — is
//! verified here; terminal, socket and file plumbing lives outside.

pub mod colour;
pub mod control;
pub mod effect;
pub mod fixed;
pub mod input;
pub mod layout;
pub mod led_controller;
pub mod pixel;
pub mod rng;
pub mod settings;
pub mod text;
pub mod trig;
pub mod vec3;
