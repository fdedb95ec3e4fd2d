//! Per-surface optical properties.
//!
//! All weights are fixed-point values: `albedo` holds the two energy
//! weights [diffuse, specular], `specular` is the Phong exponent,
//! `reflectivity` and `transparency` are expected in [0, 1], and
//! `emission` is the self-emitted radiance (zero for non-emissive
//! surfaces). Texture and normal-map references are indices into a
//! `TextureManager`; materials are small value types, copied rather than
//! shared, so tracing never aliases them.

use vstd::prelude::*;
use crate::vec3::Vec3;

verus! {

#[derive(Clone, Copy, Debug)]
pub struct Material {
    pub diffuse: Vec3,
    pub albedo: [i64; 2],
    pub specular: i64,
    pub reflectivity: i64,
    pub transparency: i64,
    pub refractive_index: i64,
    pub texture: Option<usize>,
    pub normal_map_id: Option<usize>,
    pub emission: Vec3,
}

/// The all-zero material that empty intersections carry.
pub open spec fn material_black() -> Material {
    Material {
        diffuse: Vec3 { x: 0, y: 0, z: 0 },
        albedo: [0i64, 0i64],
        specular: 0,
        reflectivity: 0,
        transparency: 0,
        refractive_index: 0,
        texture: None,
        normal_map_id: None,
        emission: Vec3 { x: 0, y: 0, z: 0 },
    }
}

impl Material {
    /// A plain untextured, non-reflective, non-emissive surface.
    pub fn new(diffuse: Vec3, albedo: [i64; 2], specular: i64) -> (m: Material)
        ensures
            m == (Material {
                diffuse,
                albedo,
                specular,
                reflectivity: 0i64,
                transparency: 0i64,
                refractive_index: 0i64,
                texture: None::<usize>,
                normal_map_id: None::<usize>,
                emission: Vec3 { x: 0i64, y: 0i64, z: 0i64 },
            }),
    {
        Material {
            diffuse,
            albedo,
            specular,
            reflectivity: 0,
            transparency: 0,
            refractive_index: 0,
            texture: None,
            normal_map_id: None,
            emission: Vec3 { x: 0, y: 0, z: 0 },
        }
    }

    /// The default all-zero material.
    pub fn black() -> (m: Material)
        ensures
            m == material_black(),
    {
        Material {
            diffuse: Vec3 { x: 0, y: 0, z: 0 },
            albedo: [0, 0],
            specular: 0,
            reflectivity: 0,
            transparency: 0,
            refractive_index: 0,
            texture: None,
            normal_map_id: None,
            emission: Vec3 { x: 0, y: 0, z: 0 },
        }
    }
}

} // verus!
