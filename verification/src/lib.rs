//! A verified software 3-D rendering core: fixed-point linear algebra,
//! camera and projection matrix builders, pipeline state, and a triangle
//! rasterization engine with z-buffering, texture sampling and per-pixel
//! Phong lighting.
//!
//! All scalars are 16.16 fixed-point values carried in `i64` raws; the
//! contracts state every operation exactly over the fixed-point spec
//! functions in [`fx`].

pub mod edge_equation;
pub mod fx;
pub mod rasterizer;
pub mod light;
pub mod texture;
pub mod triangle;
pub mod trig;
pub mod matrix;
pub mod vector;

use vstd::prelude::*;

verus! {

} // verus!
