//! A deep-zoom tile pyramid engine for very large multi-resolution images.
//!
//! The library models the coordinate transforms between world, image-pixel and
//! tile-grid space, selects the pyramid level that matches a zoom scale,
//! computes exactly which tiles cover a viewport, maintains a bounded tile
//! cache with its eviction policy, and runs the camera gesture state machines
//! that drive all of the above. Coordinates are exact rationals and camera
//! scalars are micro-unit fixed point, so every statement here is exact.

pub mod app;
pub mod camera;
pub mod frac;
pub mod iiif;
pub mod input;
pub mod micro;
pub mod minimap;
pub mod rendering;
pub mod text;
pub mod util;
