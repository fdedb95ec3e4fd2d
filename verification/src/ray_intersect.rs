//! The result of a ray–primitive test, and the intersection contract that
//! every primitive implements.
//!
//! An "empty" `Intersect` (`is_intersecting` false, zeroed fields) is the
//! sentinel for "no hit"; the tracer never shades it.

use vstd::prelude::*;
use crate::material::{material_black, Material};
use crate::vec3::Vec3;

verus! {

#[derive(Clone, Copy, Debug)]
pub struct Intersect {
    pub material: Material,
    pub distance: i64,
    pub is_intersecting: bool,
    pub normal: Vec3,
    pub point: Vec3,
    pub u: i64,
    pub v: i64,
}

/// The "no hit" sentinel.
pub open spec fn empty_intersect() -> Intersect {
    Intersect {
        material: material_black(),
        distance: 0,
        is_intersecting: false,
        normal: Vec3 { x: 0, y: 0, z: 0 },
        point: Vec3 { x: 0, y: 0, z: 0 },
        u: 0,
        v: 0,
    }
}

impl Intersect {
    /// A hit at parameter `distance` with surface frame and texture
    /// coordinates.
    pub fn new(material: Material, distance: i64, normal: Vec3, point: Vec3, u: i64, v: i64) -> (r:
        Intersect)
        ensures
            r == (Intersect { material, distance, is_intersecting: true, normal, point, u, v }),
    {
        Intersect { material, distance, is_intersecting: true, normal, point, u, v }
    }

    /// The "no hit" sentinel.
    pub fn empty() -> (r: Intersect)
        ensures
            r == empty_intersect(),
    {
        Intersect {
            material: Material::black(),
            distance: 0,
            is_intersecting: false,
            normal: Vec3 { x: 0, y: 0, z: 0 },
            point: Vec3 { x: 0, y: 0, z: 0 },
            u: 0,
            v: 0,
        }
    }
}

/// The intersection contract: `ray_intersect` returns exactly what the
/// primitive's spec-level intersection function says, for any origin and
/// direction.
pub trait RayIntersect {
    /// The mathematical intersection result for this primitive.
    spec fn spec_intersect(&self, origin: Vec3, dir: Vec3) -> Intersect;

    fn ray_intersect(&self, ray_origin: &Vec3, ray_direction: &Vec3) -> (r: Intersect)
        ensures
            r == self.spec_intersect(*ray_origin, *ray_direction),
    ;
}

} // verus!
