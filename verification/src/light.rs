//! Point lights.
//!
//! A scene holds one authored light; the tracer may synthesize further
//! ephemeral lights from emissive primitives while shading.

use vstd::prelude::*;
use crate::vec3::Vec3;

verus! {

#[derive(Clone, Copy, Debug)]
pub struct Light {
    pub position: Vec3,
    pub color: Vec3,
    pub intensity: i64,
}

impl Light {
    pub fn new(position: Vec3, color: Vec3, intensity: i64) -> (l: Light)
        ensures
            l == (Light { position, color, intensity }),
    {
        Light { position, color, intensity }
    }
}

} // verus!
