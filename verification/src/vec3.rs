//! 3D vectors over fixed-point scalars.
//!
//! A `Vec3` serves interchangeably as a geometric point, a direction, and a
//! linear (unclamped) color; callers track the meaning. Components are
//! fixed-point `i64` values, and every operation is pinned exactly by a
//! spec-level twin built from the scalar op specs.

use vstd::prelude::*;
use crate::fx::{
    fx_add, fx_add_val, fx_div, fx_div_val, fx_mul, fx_mul_val, fx_neg, fx_neg_val, fx_sqrt,
    fx_sqrt_val, fx_sub, fx_sub_val,
};

verus! {

#[derive(Clone, Copy, PartialEq, Eq, Structural, Debug)]
pub struct Vec3 {
    pub x: i64,
    pub y: i64,
    pub z: i64,
}

impl Vec3 {
    /// What `add` returns.
    pub open spec fn spec_vadd(self, other: Vec3) -> Vec3 {
        Vec3 {
            x: fx_add_val(self.x as int, other.x as int) as i64,
            y: fx_add_val(self.y as int, other.y as int) as i64,
            z: fx_add_val(self.z as int, other.z as int) as i64,
        }
    }

    /// What `sub` returns.
    pub open spec fn spec_vsub(self, other: Vec3) -> Vec3 {
        Vec3 {
            x: fx_sub_val(self.x as int, other.x as int) as i64,
            y: fx_sub_val(self.y as int, other.y as int) as i64,
            z: fx_sub_val(self.z as int, other.z as int) as i64,
        }
    }

    /// What `neg` returns.
    pub open spec fn spec_vneg(self) -> Vec3 {
        Vec3 {
            x: fx_neg_val(self.x as int) as i64,
            y: fx_neg_val(self.y as int) as i64,
            z: fx_neg_val(self.z as int) as i64,
        }
    }

    /// What `scale` returns.
    pub open spec fn spec_scale(self, s: int) -> Vec3 {
        Vec3 {
            x: fx_mul_val(self.x as int, s) as i64,
            y: fx_mul_val(self.y as int, s) as i64,
            z: fx_mul_val(self.z as int, s) as i64,
        }
    }

    /// What `dot` returns.
    pub open spec fn spec_dot(self, other: Vec3) -> int {
        fx_add_val(
            fx_add_val(
                fx_mul_val(self.x as int, other.x as int),
                fx_mul_val(self.y as int, other.y as int),
            ),
            fx_mul_val(self.z as int, other.z as int),
        )
    }

    /// What `cross` returns.
    pub open spec fn spec_cross(self, other: Vec3) -> Vec3 {
        Vec3 {
            x: fx_sub_val(
                fx_mul_val(self.y as int, other.z as int),
                fx_mul_val(self.z as int, other.y as int),
            ) as i64,
            y: fx_sub_val(
                fx_mul_val(self.z as int, other.x as int),
                fx_mul_val(self.x as int, other.z as int),
            ) as i64,
            z: fx_sub_val(
                fx_mul_val(self.x as int, other.y as int),
                fx_mul_val(self.y as int, other.x as int),
            ) as i64,
        }
    }

    /// What `length` returns: the root of the squared length, which is
    /// itself a saturating sum of squares.
    pub open spec fn spec_length(self) -> int {
        fx_sqrt_val(self.spec_dot(self))
    }

    /// What `normalized` returns: the zero vector for a degenerate input,
    /// else the vector divided by its length.
    pub open spec fn spec_normalized(self) -> Vec3 {
        let len = self.spec_length();
        if len == 0 {
            Vec3 { x: 0, y: 0, z: 0 }
        } else {
            Vec3 {
                x: fx_div_val(self.x as int, len) as i64,
                y: fx_div_val(self.y as int, len) as i64,
                z: fx_div_val(self.z as int, len) as i64,
            }
        }
    }

    pub fn new(x: i64, y: i64, z: i64) -> (r: Vec3)
        ensures
            r == (Vec3 { x, y, z }),
    {
        Vec3 { x, y, z }
    }

    pub fn zero() -> (r: Vec3)
        ensures
            r == (Vec3 { x: 0i64, y: 0i64, z: 0i64 }),
    {
        Vec3 { x: 0, y: 0, z: 0 }
    }

    /// Componentwise saturating addition.
    pub fn add(&self, other: &Vec3) -> (r: Vec3)
        ensures
            r == self.spec_vadd(*other),
    {
        Vec3 {
            x: fx_add(self.x, other.x),
            y: fx_add(self.y, other.y),
            z: fx_add(self.z, other.z),
        }
    }

    /// Componentwise saturating subtraction.
    pub fn sub(&self, other: &Vec3) -> (r: Vec3)
        ensures
            r == self.spec_vsub(*other),
    {
        Vec3 {
            x: fx_sub(self.x, other.x),
            y: fx_sub(self.y, other.y),
            z: fx_sub(self.z, other.z),
        }
    }

    /// Componentwise negation.
    pub fn neg(&self) -> (r: Vec3)
        ensures
            r == self.spec_vneg(),
    {
        Vec3 { x: fx_neg(self.x), y: fx_neg(self.y), z: fx_neg(self.z) }
    }

    /// Scale by a fixed-point scalar.
    pub fn scale(&self, s: i64) -> (r: Vec3)
        ensures
            r == self.spec_scale(s as int),
    {
        Vec3 { x: fx_mul(self.x, s), y: fx_mul(self.y, s), z: fx_mul(self.z, s) }
    }

    /// Fixed-point dot product.
    pub fn dot(&self, other: &Vec3) -> (r: i64)
        ensures
            r == self.spec_dot(*other),
    {
        fx_add(fx_add(fx_mul(self.x, other.x), fx_mul(self.y, other.y)), fx_mul(self.z, other.z))
    }

    /// Fixed-point cross product.
    pub fn cross(&self, other: &Vec3) -> (r: Vec3)
        ensures
            r == self.spec_cross(*other),
    {
        Vec3 {
            x: fx_sub(fx_mul(self.y, other.z), fx_mul(self.z, other.y)),
            y: fx_sub(fx_mul(self.z, other.x), fx_mul(self.x, other.z)),
            z: fx_sub(fx_mul(self.x, other.y), fx_mul(self.y, other.x)),
        }
    }

    /// Euclidean length, rounded down to the fixed-point grid.
    pub fn length(&self) -> (r: i64)
        ensures
            r == self.spec_length(),
            r >= 0,
    {
        let d = self.dot(self);
        fx_sqrt(d)
    }

    /// Unit-length direction; a degenerate (zero-length) vector maps to
    /// the zero vector rather than failing.
    pub fn normalized(&self) -> (r: Vec3)
        ensures
            r == self.spec_normalized(),
    {
        let len = self.length();
        if len == 0 {
            Vec3 { x: 0, y: 0, z: 0 }
        } else {
            Vec3 {
                x: fx_div(self.x, len),
                y: fx_div(self.y, len),
                z: fx_div(self.z, len),
            }
        }
    }
}

} // verus!
