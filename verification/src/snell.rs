//! Reflection and Snell-law refraction directions.
//!
//! `refract` decides from the sign of `incident . normal` whether the ray
//! is entering or exiting the medium, flipping the normal and inverting
//! the index ratio accordingly. On total internal reflection it falls
//! back to the full reflection direction — a documented policy rather
//! than an error.

use vstd::prelude::*;
use crate::fx::{
    fx_add_val, fx_div, fx_div_val, fx_mul, fx_mul_val, fx_neg_val, fx_sqrt, fx_sqrt_val, fx_sub,
    fx_sub_val, FX_ONE,
};
use crate::vec3::Vec3;

verus! {

/// What `reflect` returns: `incident - 2 (incident . normal) normal`.
pub open spec fn spec_reflect(incident: Vec3, normal: Vec3) -> Vec3 {
    incident.spec_vsub(
        normal.spec_scale(fx_mul_val(2 * FX_ONE, incident.spec_dot(normal))),
    )
}

/// What `refract` returns; see `refract`.
pub open spec fn spec_refract(incident: Vec3, normal: Vec3, refractive_index: int) -> Vec3 {
    let d = incident.spec_dot(normal);
    let cosi = if d > FX_ONE {
        FX_ONE as int
    } else if d < -FX_ONE {
        -(FX_ONE as int)
    } else {
        d
    };
    let entering = cosi < 0;
    let ci = if entering {
        -cosi
    } else {
        cosi
    };
    let n = if entering {
        normal
    } else {
        normal.spec_vneg()
    };
    let eta = if entering {
        fx_div_val(FX_ONE as int, refractive_index)
    } else {
        refractive_index
    };
    let k = fx_sub_val(
        FX_ONE as int,
        fx_mul_val(fx_mul_val(eta, eta), fx_sub_val(FX_ONE as int, fx_mul_val(ci, ci))),
    );
    if k < 0 {
        spec_reflect(incident, normal)
    } else {
        incident.spec_scale(eta).spec_vadd(
            n.spec_scale(fx_sub_val(fx_mul_val(eta, ci), fx_sqrt_val(k))),
        )
    }
}

/// The incident direction mirrored about the normal.
pub fn reflect(incident: &Vec3, normal: &Vec3) -> (r: Vec3)
    ensures
        r == spec_reflect(*incident, *normal),
{
    let two_dot = fx_mul(2 * FX_ONE, incident.dot(normal));
    incident.sub(&normal.scale(two_dot))
}

/// The transmission direction through a surface with the given relative
/// refractive index; total internal reflection yields the reflection
/// direction instead.
pub fn refract(incident: &Vec3, normal: &Vec3, refractive_index: i64) -> (r: Vec3)
    ensures
        r == spec_refract(*incident, *normal, refractive_index as int),
{
    let d = incident.dot(normal);
    let cosi: i64 = if d > FX_ONE {
        FX_ONE
    } else if d < -FX_ONE {
        -FX_ONE
    } else {
        d
    };
    let entering = cosi < 0;
    let ci: i64 = if entering {
        -cosi
    } else {
        cosi
    };
    let n: Vec3 = if entering {
        *normal
    } else {
        normal.neg()
    };
    let eta: i64 = if entering {
        fx_div(FX_ONE, refractive_index)
    } else {
        refractive_index
    };
    let k = fx_sub(FX_ONE, fx_mul(fx_mul(eta, eta), fx_sub(FX_ONE, fx_mul(ci, ci))));
    if k < 0 {
        reflect(incident, normal)
    } else {
        incident.scale(eta).add(&n.scale(fx_sub(fx_mul(eta, ci), fx_sqrt(k))))
    }
}

} // verus!
