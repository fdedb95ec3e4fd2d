//! Axis-aligned cube primitive and its slab-method ray intersection.
//!
//! For each axis the ray is clipped against the two bounding planes,
//! keeping a running `[tmin, tmax]` interval and the axis whose plane
//! produced the entry point. An empty interval, an interval entirely
//! behind the origin, or a degenerate ray (zero direction outside a slab,
//! or parallel everywhere) is a miss. The entry normal is always one of
//! the six axis-aligned unit vectors.

use vstd::prelude::*;
use crate::fx::{
    fx_add, fx_add_val, fx_div, fx_div_val, fx_mul, fx_mul_val, fx_sub, fx_sub_val, FX_HALF, FX_MAX,
    FX_ONE,
};
use crate::material::Material;
use crate::ray_intersect::{empty_intersect, Intersect, RayIntersect};
use crate::sphere::HIT_EPS;
use crate::vec3::Vec3;

verus! {

/// Marker for "no entry axis found yet".
pub const AXIS_NONE: u8 = 3;

#[derive(Clone, Copy, Debug)]
pub struct Cube {
    pub center: Vec3,
    pub size: i64,
    pub material: Material,
}

/// Running state of the slab clipping: the entry/exit interval, whether a
/// parallel ray has already missed, and which axis (with which facing)
/// produced the entry point.
#[derive(Clone, Copy, PartialEq, Eq, Structural, Debug)]
pub struct SlabState {
    pub miss: bool,
    pub tmin: i64,
    pub tmax: i64,
    pub axis: u8,
    pub nsign: i64,
}

/// Clip the running interval against one axis' two bounding planes.
pub open spec fn spec_slab_axis(st: SlabState, o: int, d: int, mn: int, mx: int, id: u8)
    -> SlabState {
    if st.miss {
        st
    } else if d == 0 {
        if o < mn || o > mx {
            SlabState { miss: true, tmin: st.tmin, tmax: st.tmax, axis: st.axis, nsign: st.nsign }
        } else {
            st
        }
    } else {
        let t1 = fx_div_val(fx_sub_val(mn, o), d);
        let t2 = fx_div_val(fx_sub_val(mx, o), d);
        let tn = if d > 0 { t1 } else { t2 };
        let tf = if d > 0 { t2 } else { t1 };
        let ns: i64 = if d > 0 { (-FX_ONE) as i64 } else { FX_ONE };
        let st1 = if tn > st.tmin {
            SlabState { miss: st.miss, tmin: tn as i64, tmax: st.tmax, axis: id, nsign: ns }
        } else {
            st
        };
        if tf < st1.tmax {
            SlabState { miss: st1.miss, tmin: st1.tmin, tmax: tf as i64, axis: st1.axis, nsign: st1.nsign }
        } else {
            st1
        }
    }
}

/// The outward unit normal of the face on the given axis with the given
/// facing.
pub open spec fn axis_normal(axis: u8, nsign: i64) -> Vec3 {
    if axis == 0 {
        Vec3 { x: nsign, y: 0, z: 0 }
    } else if axis == 1 {
        Vec3 { x: 0, y: nsign, z: 0 }
    } else {
        Vec3 { x: 0, y: 0, z: nsign }
    }
}

/// Horizontal texture coordinate of the entry face: the fractional
/// position along the face's first tangent axis, mirrored on
/// negative-facing faces so each of the six faces samples texture space
/// independently.
pub open spec fn cube_face_u(axis: u8, nsign: i64, rel: Vec3, size: int) -> int {
    let raw = if axis == 0 {
        fx_div_val(rel.z as int, size)
    } else if axis == 1 {
        fx_div_val(rel.x as int, size)
    } else {
        fx_div_val(rel.x as int, size)
    };
    if nsign < 0 {
        fx_sub_val(FX_ONE as int, raw)
    } else {
        raw
    }
}

/// Vertical texture coordinate of the entry face: the fractional position
/// along the face's second tangent axis.
pub open spec fn cube_face_v(axis: u8, rel: Vec3, size: int) -> int {
    if axis == 0 {
        fx_div_val(rel.y as int, size)
    } else if axis == 1 {
        fx_div_val(rel.z as int, size)
    } else {
        fx_div_val(rel.y as int, size)
    }
}

/// The mathematical result of intersecting a ray with an axis-aligned
/// cube by the slab method.
pub open spec fn spec_cube_intersect(c: Cube, origin: Vec3, dir: Vec3) -> Intersect {
    if c.size <= 0 {
        empty_intersect()
    } else {
        let half = fx_mul_val(c.size as int, FX_HALF as int);
        let mnx = fx_sub_val(c.center.x as int, half);
        let mny = fx_sub_val(c.center.y as int, half);
        let mnz = fx_sub_val(c.center.z as int, half);
        let mxx = fx_add_val(c.center.x as int, half);
        let mxy = fx_add_val(c.center.y as int, half);
        let mxz = fx_add_val(c.center.z as int, half);
        let st0 = SlabState {
            miss: false,
            tmin: (-FX_MAX) as i64,
            tmax: FX_MAX,
            axis: AXIS_NONE,
            nsign: FX_ONE,
        };
        let st1 = spec_slab_axis(st0, origin.x as int, dir.x as int, mnx, mxx, 0);
        let st2 = spec_slab_axis(st1, origin.y as int, dir.y as int, mny, mxy, 1);
        let st3 = spec_slab_axis(st2, origin.z as int, dir.z as int, mnz, mxz, 2);
        if st3.miss || st3.axis == AXIS_NONE || st3.tmin > st3.tmax || st3.tmax < 0 || st3.tmin
            <= HIT_EPS {
            empty_intersect()
        } else {
            let t = st3.tmin as int;
            let point = origin.spec_vadd(dir.spec_scale(t));
            let rel = point.spec_vsub(Vec3 { x: mnx as i64, y: mny as i64, z: mnz as i64 });
            Intersect {
                material: c.material,
                distance: st3.tmin,
                is_intersecting: true,
                normal: axis_normal(st3.axis, st3.nsign),
                point,
                u: cube_face_u(st3.axis, st3.nsign, rel, c.size as int) as i64,
                v: cube_face_v(st3.axis, rel, c.size as int) as i64,
            }
        }
    }
}

/// Clip the running interval against one axis' two bounding planes.
fn slab_axis(st: SlabState, o: i64, d: i64, mn: i64, mx: i64, id: u8) -> (r: SlabState)
    ensures
        r == spec_slab_axis(st, o as int, d as int, mn as int, mx as int, id),
{
    if st.miss {
        return st;
    }
    if d == 0 {
        if o < mn || o > mx {
            return SlabState {
                miss: true,
                tmin: st.tmin,
                tmax: st.tmax,
                axis: st.axis,
                nsign: st.nsign,
            };
        }
        return st;
    }
    let t1 = fx_div(fx_sub(mn, o), d);
    let t2 = fx_div(fx_sub(mx, o), d);
    let tn = if d > 0 { t1 } else { t2 };
    let tf = if d > 0 { t2 } else { t1 };
    let ns: i64 = if d > 0 { -FX_ONE } else { FX_ONE };
    let st1 = if tn > st.tmin {
        SlabState { miss: st.miss, tmin: tn, tmax: st.tmax, axis: id, nsign: ns }
    } else {
        st
    };
    if tf < st1.tmax {
        SlabState { miss: st1.miss, tmin: st1.tmin, tmax: tf, axis: st1.axis, nsign: st1.nsign }
    } else {
        st1
    }
}

impl Cube {
    pub fn new(center: Vec3, size: i64, material: Material) -> (c: Cube)
        ensures
            c == (Cube { center, size, material }),
    {
        Cube { center, size, material }
    }
}

impl RayIntersect for Cube {
    open spec fn spec_intersect(&self, origin: Vec3, dir: Vec3) -> Intersect {
        spec_cube_intersect(*self, origin, dir)
    }

    fn ray_intersect(&self, ray_origin: &Vec3, ray_direction: &Vec3) -> (r: Intersect) {
        if self.size <= 0 {
            return Intersect::empty();
        }
        let half = fx_mul(self.size, FX_HALF);
        let mnx = fx_sub(self.center.x, half);
        let mny = fx_sub(self.center.y, half);
        let mnz = fx_sub(self.center.z, half);
        let mxx = fx_add(self.center.x, half);
        let mxy = fx_add(self.center.y, half);
        let mxz = fx_add(self.center.z, half);
        let st0 = SlabState {
            miss: false,
            tmin: -FX_MAX,
            tmax: FX_MAX,
            axis: AXIS_NONE,
            nsign: FX_ONE,
        };
        let st1 = slab_axis(st0, ray_origin.x, ray_direction.x, mnx, mxx, 0);
        let st2 = slab_axis(st1, ray_origin.y, ray_direction.y, mny, mxy, 1);
        let st3 = slab_axis(st2, ray_origin.z, ray_direction.z, mnz, mxz, 2);
        if st3.miss || st3.axis == AXIS_NONE || st3.tmin > st3.tmax || st3.tmax < 0 || st3.tmin
            <= HIT_EPS {
            return Intersect::empty();
        }
        let t = st3.tmin;
        let point = ray_origin.add(&ray_direction.scale(t));
        let mn = Vec3 { x: mnx, y: mny, z: mnz };
        let rel = point.sub(&mn);
        let raw_u = if st3.axis == 0 {
            fx_div(rel.z, self.size)
        } else if st3.axis == 1 {
            fx_div(rel.x, self.size)
        } else {
            fx_div(rel.x, self.size)
        };
        let u = if st3.nsign < 0 {
            fx_sub(FX_ONE, raw_u)
        } else {
            raw_u
        };
        let v = if st3.axis == 0 {
            fx_div(rel.y, self.size)
        } else if st3.axis == 1 {
            fx_div(rel.z, self.size)
        } else {
            fx_div(rel.y, self.size)
        };
        Intersect {
            material: self.material,
            distance: t,
            is_intersecting: true,
            normal: Vec3 {
                x: if st3.axis == 0 { st3.nsign } else { 0 },
                y: if st3.axis == 1 { st3.nsign } else { 0 },
                z: if st3.axis == 2 { st3.nsign } else { 0 },
            },
            point,
            u,
            v,
        }
    }
}

/// A vector is one of the six axis-aligned unit vectors.
pub open spec fn is_axis_unit(nv: Vec3) -> bool {
    nv == (Vec3 { x: FX_ONE, y: 0i64, z: 0i64 }) || nv == (Vec3 {
        x: (-FX_ONE) as i64,
        y: 0i64,
        z: 0i64,
    }) || nv == (Vec3 { x: 0i64, y: FX_ONE, z: 0i64 }) || nv == (Vec3 {
        x: 0i64,
        y: (-FX_ONE) as i64,
        z: 0i64,
    }) || nv == (Vec3 { x: 0i64, y: 0i64, z: FX_ONE }) || nv == (Vec3 {
        x: 0i64,
        y: 0i64,
        z: (-FX_ONE) as i64,
    })
}

/// Clipping an axis never invents a facing: the entry sign stays one of
/// the two unit magnitudes and the entry axis stays one already seen or
/// the axis just processed.
proof fn lemma_slab_axis_sign(st: SlabState, o: int, d: int, mn: int, mx: int, id: u8)
    requires
        st.nsign == FX_ONE || st.nsign == -FX_ONE,
    ensures
        spec_slab_axis(st, o, d, mn, mx, id).nsign == FX_ONE || spec_slab_axis(
            st,
            o,
            d,
            mn,
            mx,
            id,
        ).nsign == -FX_ONE,
        spec_slab_axis(st, o, d, mn, mx, id).axis == st.axis || spec_slab_axis(
            st,
            o,
            d,
            mn,
            mx,
            id,
        ).axis == id,
{
}

/// Whenever a cube reports a hit, the reported entry-face normal is one
/// of the six axis-aligned unit vectors — never a diagonal.
pub proof fn lemma_cube_normal_axis_aligned(c: Cube, origin: Vec3, dir: Vec3)
    requires
        spec_cube_intersect(c, origin, dir).is_intersecting,
    ensures
        is_axis_unit(spec_cube_intersect(c, origin, dir).normal),
{
    let half = fx_mul_val(c.size as int, FX_HALF as int);
    let mnx = fx_sub_val(c.center.x as int, half);
    let mny = fx_sub_val(c.center.y as int, half);
    let mnz = fx_sub_val(c.center.z as int, half);
    let mxx = fx_add_val(c.center.x as int, half);
    let mxy = fx_add_val(c.center.y as int, half);
    let mxz = fx_add_val(c.center.z as int, half);
    let st0 = SlabState {
        miss: false,
        tmin: (-FX_MAX) as i64,
        tmax: FX_MAX,
        axis: AXIS_NONE,
        nsign: FX_ONE,
    };
    let st1 = spec_slab_axis(st0, origin.x as int, dir.x as int, mnx, mxx, 0);
    let st2 = spec_slab_axis(st1, origin.y as int, dir.y as int, mny, mxy, 1);
    let st3 = spec_slab_axis(st2, origin.z as int, dir.z as int, mnz, mxz, 2);
    lemma_slab_axis_sign(st0, origin.x as int, dir.x as int, mnx, mxx, 0);
    lemma_slab_axis_sign(st1, origin.y as int, dir.y as int, mny, mxy, 1);
    lemma_slab_axis_sign(st2, origin.z as int, dir.z as int, mnz, mxz, 2);
}

} // verus!
