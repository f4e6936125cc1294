//! A point light: a position in view space and an RGB intensity.
//!
//! Lights are owned by the pipeline state for the duration of a frame and
//! read by the shading stage only.

use vstd::prelude::*;
use crate::vector::{Color3, Vector3};

verus! {

/// A positional light source.
#[derive(Clone, Copy, Debug, PartialEq, Eq, Structural)]
pub struct Light {
    pub position: Vector3,
    pub intensity: Color3,
}

impl Light {
    /// A light from its position and intensity.
    pub fn new(position: Vector3, intensity: Color3) -> (r: Light)
        ensures
            r.position == position,
            r.intensity == intensity,
    {
        Light { position, intensity }
    }
}

} // verus!
