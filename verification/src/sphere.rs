//! Sphere primitive and its ray intersection.
//!
//! Intersection solves the quadratic `|O + tD - C|^2 = r^2` in fixed
//! point, keeps the smaller positive root, and treats roots at or below a
//! small epsilon as non-hits to avoid self-shadowing artifacts. Degenerate
//! inputs (zero-length direction, nonpositive radius, vanishing quadratic
//! coefficient) degrade to "no intersection" rather than failing.

use vstd::prelude::*;
use crate::fx::{
    fx_abs, fx_add_val, fx_clip, fx_div, fx_div_val, fx_mul, fx_mul_val, fx_neg, fx_neg_val,
    fx_sqrt, fx_sqrt_val, fx_sub, fx_sub_val, fx_tdiv, lemma_fx_mul_val_comm,
    lemma_fx_mul_val_scaled, lemma_tdiv_nonneg, lemma_tdiv_scale_cancel, FX_FOUR, FX_ONE, FX_TWO,
};
use crate::material::Material;
use crate::ray_intersect::{empty_intersect, Intersect, RayIntersect};
use crate::vec3::Vec3;

verus! {

/// Hit parameters at or below this value (about 1e-3) are rejected, so a
/// secondary ray never reports its own surface.
pub const HIT_EPS: i64 = 66;

#[derive(Clone, Copy, Debug)]
pub struct Sphere {
    pub center: Vec3,
    pub radius: i64,
    pub material: Material,
}

/// The mathematical result of intersecting a ray with a sphere: the
/// discriminant test of the quadratic, then the smaller root, kept only
/// when it lies beyond the epsilon.
pub open spec fn spec_sphere_intersect(s: Sphere, origin: Vec3, dir: Vec3) -> Intersect {
    let oc = origin.spec_vsub(s.center);
    let a = dir.spec_dot(dir);
    let b = fx_mul_val(2 * FX_ONE, oc.spec_dot(dir));
    let c = fx_sub_val(oc.spec_dot(oc), fx_mul_val(s.radius as int, s.radius as int));
    let disc = fx_sub_val(fx_mul_val(b, b), fx_mul_val(fx_mul_val(4 * FX_ONE, a), c));
    if s.radius > 0 && a > 0 && disc > 0 {
        let t = fx_div_val(fx_sub_val(fx_neg_val(b), fx_sqrt_val(disc)), fx_mul_val(2 * FX_ONE, a));
        if t > HIT_EPS {
            let point = origin.spec_vadd(dir.spec_scale(t));
            let normal = point.spec_vsub(s.center).spec_normalized();
            Intersect {
                material: s.material,
                distance: t as i64,
                is_intersecting: true,
                normal,
                point,
                u: 0,
                v: 0,
            }
        } else {
            empty_intersect()
        }
    } else {
        empty_intersect()
    }
}

/// Coordinates within this window (4096 world units) keep every
/// intermediate of the silhouette argument far from saturation.
pub const SCENE_BOUND: i64 = 268435456;

/// A ray travelling parallel to the z axis (in either direction) that
/// starts laterally outside a sphere's silhouette never intersects it,
/// whatever its z position and for any positive radius: the squared
/// lateral offset exceeding the squared radius forces a negative
/// discriminant.
pub proof fn lemma_sphere_silhouette_miss(s: Sphere, origin: Vec3, dir: Vec3)
    requires
        dir.x == 0i64,
        dir.y == 0i64,
        dir.z == FX_ONE || dir.z == (-FX_ONE) as i64,
        fx_abs(origin.x as int) <= SCENE_BOUND,
        fx_abs(origin.y as int) <= SCENE_BOUND,
        fx_abs(origin.z as int) <= SCENE_BOUND,
        fx_abs(s.center.x as int) <= SCENE_BOUND,
        fx_abs(s.center.y as int) <= SCENE_BOUND,
        fx_abs(s.center.z as int) <= SCENE_BOUND,
        0 < s.radius <= SCENE_BOUND,
        fx_add_val(
            fx_mul_val(origin.x - s.center.x, origin.x - s.center.x),
            fx_mul_val(origin.y - s.center.y, origin.y - s.center.y),
        ) > fx_mul_val(s.radius as int, s.radius as int),
    ensures
        spec_sphere_intersect(s, origin, dir) == empty_intersect(),
{
    let unit = FX_ONE as int;
    let ocx = origin.x - s.center.x;
    let ocy = origin.y - s.center.y;
    let ocz = origin.z - s.center.z;
    let oc = origin.spec_vsub(s.center);
    assert(oc == (Vec3 { x: ocx as i64, y: ocy as i64, z: ocz as i64 }));

    // The direction is a unit vector, so the quadratic's leading
    // coefficient is exactly one.
    lemma_tdiv_scale_cancel(FX_ONE as int);
    assert((dir.z as int) * (dir.z as int) == unit * unit) by (nonlinear_arith)
        requires
            dir.z as int == unit || dir.z as int == -unit,
    ;
    let a = dir.spec_dot(dir);
    assert(fx_mul_val(dir.z as int, dir.z as int) == unit);
    assert(fx_mul_val(0, 0) == 0);
    assert(a == unit);

    // oc . dir is exactly +/- ocz, and b exactly +/- 2 ocz.
    lemma_fx_mul_val_comm(ocz, dir.z as int);
    lemma_fx_mul_val_scaled(-1, ocz);
    lemma_fx_mul_val_scaled(1, ocz);
    assert(fx_mul_val(ocx, 0) == 0);
    assert(fx_mul_val(ocy, 0) == 0);
    let od = oc.spec_dot(dir);
    if dir.z == FX_ONE {
        assert(dir.z as int == 1 * FX_ONE);
        assert(od == ocz);
    } else {
        assert(dir.z as int == -1 * FX_ONE);
        assert(od == -ocz);
    }
    lemma_fx_mul_val_scaled(2, od);
    let b = fx_mul_val(2 * FX_ONE, od);
    assert(b == 2 * ocz || b == -2 * ocz);

    // The three squared components of oc . oc, and the squared radius.
    let tx = fx_mul_val(ocx, ocx);
    let ty = fx_mul_val(ocy, ocy);
    let tz = fx_mul_val(ocz, ocz);
    let rr = fx_mul_val(s.radius as int, s.radius as int);
    lemma_square_term_window(ocx);
    lemma_square_term_window(ocy);
    lemma_square_term_window(ocz);
    lemma_square_term_window(s.radius as int);
    assert(oc.spec_dot(oc) == tx + ty + tz);
    let c = fx_sub_val(oc.spec_dot(oc), rr);
    assert(c == tx + ty + tz - rr);
    assert(fx_add_val(tx, ty) == tx + ty);
    assert(c >= tz + 1);

    // b^2 = 4 ocz^2, whose scaled floor is at most 4 tz + 3; 4ac is
    // exactly 4c. So the discriminant is negative.
    assert(b * b == 4 * (ocz * ocz)) by (nonlinear_arith)
        requires
            b == 2 * ocz || b == -2 * ocz,
    ;
    lemma_tdiv_nonneg(b * b, unit);
    assert(ocz * ocz >= 0) by (nonlinear_arith);
    lemma_quarter_floor(ocz * ocz);
    assert(fx_tdiv(b * b, unit) <= 4 * fx_tdiv(ocz * ocz, unit) + 3) by {
        lemma_tdiv_nonneg(ocz * ocz, unit);
    }
    assert(tz == fx_tdiv(ocz * ocz, unit));
    let q = fx_mul_val(b, b);
    assert(q <= 4 * tz + 3);
    lemma_fx_mul_val_scaled(4, a);
    assert(fx_mul_val(4 * FX_ONE, a) == fx_clip(4 * unit));
    lemma_fx_mul_val_scaled(4, c);
    assert(fx_mul_val(4 * FX_ONE, a) == 4 * FX_ONE);
    let fourac = fx_mul_val(fx_mul_val(4 * FX_ONE, a), c);
    assert(fourac == fx_mul_val(4 * FX_ONE, c));
    assert(fourac == 4 * c);
    let disc = fx_sub_val(q, fourac);
    assert(q - fourac <= -1);
    assert(disc <= -1);
    assert(!(disc > 0));
}

/// The scaled floor of a square of a windowed value is nonnegative and
/// comfortably inside the fixed-point window.
proof fn lemma_square_term_window(v: int)
    requires
        fx_abs(v) <= 2 * SCENE_BOUND,
    ensures
        0 <= fx_mul_val(v, v) <= 4398046511104,
        fx_mul_val(v, v) == fx_tdiv(v * v, FX_ONE as int),
        fx_tdiv(v * v, FX_ONE as int) == (v * v) / (FX_ONE as int),
{
    assert(0 <= v * v <= 288230376151711744) by (nonlinear_arith)
        requires
            fx_abs(v) <= 2 * SCENE_BOUND,
            SCENE_BOUND == 268435456i64,
    ;
    lemma_tdiv_nonneg(v * v, FX_ONE as int);
    vstd::arithmetic::div_mod::lemma_div_is_ordered(v * v, 288230376151711744, FX_ONE as int);
    vstd::arithmetic::div_mod::lemma_div_pos_is_pos(v * v, FX_ONE as int);
    assert(288230376151711744int / 65536int == 4398046511104int);
}

/// Scaling the numerator of a floor quotient by four at most adds three
/// quarters' worth of slack.
proof fn lemma_quarter_floor(m: int)
    requires
        m >= 0,
    ensures
        (4 * m) / (FX_ONE as int) <= 4 * (m / (FX_ONE as int)) + 3,
{
    let unit = FX_ONE as int;
    vstd::arithmetic::div_mod::lemma_fundamental_div_mod(m, unit);
    let t = m / unit;
    let rho = m % unit;
    vstd::arithmetic::div_mod::lemma_fundamental_div_mod(4 * rho, unit);
    let qp = (4 * rho) / unit;
    let rp = (4 * rho) % unit;
    vstd::arithmetic::div_mod::lemma_div_is_ordered(4 * rho, 4 * unit - 4, unit);
    assert((4 * unit - 4) / unit == 3);
    vstd::arithmetic::div_mod::lemma_div_pos_is_pos(4 * rho, unit);
    assert(4 * m == unit * (4 * t + qp) + rp) by (nonlinear_arith)
        requires
            m == unit * t + rho,
            4 * rho == unit * qp + rp,
    ;
    vstd::arithmetic::div_mod::lemma_fundamental_div_mod_converse(4 * m, unit, 4 * t + qp, rp);
}

impl Sphere {
    pub fn new(center: Vec3, radius: i64, material: Material) -> (s: Sphere)
        ensures
            s == (Sphere { center, radius, material }),
    {
        Sphere { center, radius, material }
    }
}

impl RayIntersect for Sphere {
    open spec fn spec_intersect(&self, origin: Vec3, dir: Vec3) -> Intersect {
        spec_sphere_intersect(*self, origin, dir)
    }

    fn ray_intersect(&self, ray_origin: &Vec3, ray_direction: &Vec3) -> (r: Intersect) {
        let oc = ray_origin.sub(&self.center);
        let a = ray_direction.dot(ray_direction);
        let b = fx_mul(FX_TWO, oc.dot(ray_direction));
        let c = fx_sub(oc.dot(&oc), fx_mul(self.radius, self.radius));
        let disc = fx_sub(fx_mul(b, b), fx_mul(fx_mul(FX_FOUR, a), c));
        if self.radius > 0 && a > 0 && disc > 0 {
            let t = fx_div(fx_sub(fx_neg(b), fx_sqrt(disc)), fx_mul(FX_TWO, a));
            if t > HIT_EPS {
                let point = ray_origin.add(&ray_direction.scale(t));
                let normal = point.sub(&self.center).normalized();
                return Intersect {
                    material: self.material,
                    distance: t,
                    is_intersecting: true,
                    normal,
                    point,
                    u: 0,
                    v: 0,
                };
            }
        }
        Intersect::empty()
    }
}

} // verus!
