//! The recursive shading engine and the per-pixel render loop.
//!
//! `cast_ray` finds the closest hit along a ray, shades it from the
//! authored light plus one derived light per emissive primitive, and
//! recurses for reflection and refraction up to a fixed depth bound; the
//! base case (depth exceeded, or no hit) is the procedural sky. Every
//! pixel of `render` is an independent function of the scene snapshot, so
//! a host may compute pixels in any order or in parallel and place each
//! result at index `x + y * width`.

use vstd::prelude::*;
use crate::camera::{spec_basis_change, Camera};
use crate::color::{color_to_vector3_val, vector3_to_color, vector3_to_color_val, Color};
use crate::cube::{spec_cube_intersect, Cube};
use crate::fx::{
    fx_add, fx_add_val, fx_div, fx_div_val, fx_mul, fx_mul_val, fx_neg, fx_neg_val, fx_of_i64,
    fx_of_val, fx_sub, fx_sub_val, lemma_fx_mul_monotone, FX_HALF, FX_ONE,
};
use crate::light::Light;
use crate::material::Material;
use crate::ray_intersect::{empty_intersect, Intersect, RayIntersect};
use crate::snell::{reflect, refract, spec_reflect, spec_refract};
use crate::sphere::{spec_sphere_intersect, Sphere};
use crate::textures::{spec_normal_from_map, spec_tex_coord, spec_texel, tex_coord, TextureManager};
use crate::vec3::Vec3;

verus! {

/// Recursion bound: secondary rays beyond this depth sample the sky.
pub const DEPTH_LIMIT: u32 = 1;

/// Shadowed points keep this fraction of the light removed: the fixed
/// attenuation constant (0.7), not a graded occlusion fraction.
pub const SHADOW_OPACITY: i64 = 45875;

/// Offset along the surface normal for shadow-ray origins (about 1e-3).
pub const SHADOW_BIAS: i64 = 66;

/// Offset along the surface normal for secondary-ray origins (about
/// 1e-4).
pub const ORIGIN_BIAS: i64 = 7;

/// A scene primitive: a closed set of shapes, each owning its material.
#[derive(Clone, Copy, Debug)]
pub enum Primitive {
    Sphere(Sphere),
    Cube(Cube),
}

/// The intersection of a ray with a primitive, by shape.
pub open spec fn spec_prim_intersect(p: Primitive, origin: Vec3, dir: Vec3) -> Intersect {
    match p {
        Primitive::Sphere(s) => spec_sphere_intersect(s, origin, dir),
        Primitive::Cube(c) => spec_cube_intersect(c, origin, dir),
    }
}

/// The material a primitive carries.
pub open spec fn spec_prim_material(p: Primitive) -> Material {
    match p {
        Primitive::Sphere(s) => s.material,
        Primitive::Cube(c) => c.material,
    }
}

/// The centroid of a primitive's bounding volume.
pub open spec fn spec_prim_center(p: Primitive) -> Vec3 {
    match p {
        Primitive::Sphere(s) => s.center,
        Primitive::Cube(c) => c.center,
    }
}

impl RayIntersect for Primitive {
    open spec fn spec_intersect(&self, origin: Vec3, dir: Vec3) -> Intersect {
        spec_prim_intersect(*self, origin, dir)
    }

    fn ray_intersect(&self, ray_origin: &Vec3, ray_direction: &Vec3) -> (r: Intersect) {
        match self {
            Primitive::Sphere(s) => s.ray_intersect(ray_origin, ray_direction),
            Primitive::Cube(c) => c.ray_intersect(ray_origin, ray_direction),
        }
    }
}

impl Primitive {
    pub fn material(&self) -> (m: Material)
        ensures
            m == spec_prim_material(*self),
    {
        match self {
            Primitive::Sphere(s) => s.material,
            Primitive::Cube(c) => c.material,
        }
    }

    pub fn center(&self) -> (c: Vec3)
        ensures
            c == spec_prim_center(*self),
    {
        match self {
            Primitive::Sphere(s) => s.center,
            Primitive::Cube(c) => c.center,
        }
    }
}

/// What `procedural_sky` returns: green, white and blue bands keyed by
/// the direction's height, with linear blends between the bands.
pub open spec fn spec_sky(dir: Vec3) -> Vec3 {
    let d = dir.spec_normalized();
    let t = fx_mul_val(fx_add_val(d.y as int, FX_ONE as int), FX_HALF as int);
    let green = Vec3 { x: 6554, y: 39322, z: 13107 };
    let white = Vec3 { x: FX_ONE, y: FX_ONE, z: FX_ONE };
    let blue = Vec3 { x: 19661, y: 32768, z: FX_ONE };
    if t < 35389 {
        let k = fx_div_val(t, 36045);
        green.spec_scale(fx_sub_val(FX_ONE as int, k)).spec_vadd(white.spec_scale(k))
    } else if t < 36045 {
        white
    } else if t < 52429 {
        let k = fx_div_val(fx_sub_val(t, 36045), 16384);
        white.spec_scale(fx_sub_val(FX_ONE as int, k)).spec_vadd(blue.spec_scale(k))
    } else {
        blue
    }
}

/// The environment color for a ray that hits nothing: a procedural sky
/// gradient.
pub fn procedural_sky(dir: &Vec3) -> (r: Vec3)
    ensures
        r == spec_sky(*dir),
{
    let d = dir.normalized();
    let t = fx_mul(fx_add(d.y, FX_ONE), FX_HALF);
    let green = Vec3 { x: 6554, y: 39322, z: 13107 };
    let white = Vec3 { x: FX_ONE, y: FX_ONE, z: FX_ONE };
    let blue = Vec3 { x: 19661, y: 32768, z: FX_ONE };
    if t < 35389 {
        let k = fx_div(t, 36045);
        green.scale(fx_sub(FX_ONE, k)).add(&white.scale(k))
    } else if t < 36045 {
        white
    } else if t < 52429 {
        let k = fx_div(fx_sub(t, 36045), 16384);
        white.scale(fx_sub(FX_ONE, k)).add(&blue.scale(k))
    } else {
        blue
    }
}

/// The origin a shadow ray starts from: the hit point, pushed out along
/// the surface normal so the surface does not occlude itself.
pub open spec fn spec_shadow_origin(hit: Intersect) -> Vec3 {
    hit.point.spec_vadd(hit.normal.spec_scale(SHADOW_BIAS as int))
}

/// Whether one primitive blocks the path from the (biased) shadow origin
/// to the light.
pub open spec fn spec_blocks(p: Primitive, hit: Intersect, light: Light) -> bool {
    let light_dir = light.position.spec_vsub(hit.point).spec_normalized();
    let origin = spec_shadow_origin(hit);
    let dist = light.position.spec_vsub(origin).spec_length();
    let si = spec_prim_intersect(p, origin, light_dir);
    si.is_intersecting && si.distance < dist
}

/// What `cast_shadow` returns: the fixed attenuation constant when any
/// primitive stands between the point and the light (measured from the
/// biased origin), and exactly zero otherwise.
pub open spec fn spec_cast_shadow(objects: Seq<Primitive>, hit: Intersect, light: Light) -> int {
    if exists|i: int| 0 <= i < objects.len() && spec_blocks(objects[i], hit, light) {
        SHADOW_OPACITY as int
    } else {
        0
    }
}

/// Shadow attenuation at a hit point: `SHADOW_OPACITY` if some primitive
/// occludes the light, zero — never a false self-shadow — when nothing
/// does. The occlusion distance is measured from the biased origin, not
/// the raw hit point.
pub fn cast_shadow(intersect: &Intersect, light: &Light, objects: &Vec<Primitive>) -> (r: i64)
    ensures
        r == spec_cast_shadow(objects@, *intersect, *light),
{
    let light_direction = light.position.sub(&intersect.point).normalized();
    let shadow_ray_origin = intersect.point.add(&intersect.normal.scale(SHADOW_BIAS));
    let dist = light.position.sub(&shadow_ray_origin).length();
    let mut i: usize = 0;
    while i < objects.len()
        invariant
            0 <= i <= objects@.len(),
            light_direction == light.position.spec_vsub(intersect.point).spec_normalized(),
            shadow_ray_origin == spec_shadow_origin(*intersect),
            dist == light.position.spec_vsub(shadow_ray_origin).spec_length(),
            forall|j: int| 0 <= j < i ==> !spec_blocks(objects@[j], *intersect, *light),
        decreases objects@.len() - i,
    {
        let shadow_intersect = objects[i].ray_intersect(&shadow_ray_origin, &light_direction);
        if shadow_intersect.is_intersecting && shadow_intersect.distance < dist {
            assert(spec_blocks(objects@[i as int], *intersect, *light));
            return SHADOW_OPACITY;
        }
        i = i + 1;
    }
    0
}

/// The origin a secondary (reflection or refraction) ray starts from:
/// the hit point biased along the geometric normal, on the side the new
/// ray leaves through.
pub open spec fn spec_offset_origin(hit: Intersect, ray_direction: Vec3) -> Vec3 {
    let offset = hit.normal.spec_scale(ORIGIN_BIAS as int);
    if ray_direction.spec_dot(hit.normal) < 0 {
        hit.point.spec_vsub(offset)
    } else {
        hit.point.spec_vadd(offset)
    }
}

/// Bias a secondary-ray origin off the surface to avoid immediate
/// self-intersection.
pub fn offset_origin(intersect: &Intersect, ray_direction: &Vec3) -> (r: Vec3)
    ensures
        r == spec_offset_origin(*intersect, *ray_direction),
{
    let offset = intersect.normal.scale(ORIGIN_BIAS);
    if ray_direction.dot(&intersect.normal) < 0 {
        intersect.point.sub(&offset)
    } else {
        intersect.point.add(&offset)
    }
}

/// The closest hit among the primitives from index `i` on, given the
/// best hit seen so far: a later hit replaces the best only when it is
/// strictly closer (or the first hit at all), so among equal distances
/// the earliest primitive wins.
pub open spec fn spec_closest_from(
    objects: Seq<Primitive>,
    origin: Vec3,
    dir: Vec3,
    i: int,
    best: Intersect,
) -> Intersect
    decreases objects.len() - i,
{
    if i < 0 || i >= objects.len() {
        best
    } else {
        let tmp = spec_prim_intersect(objects[i], origin, dir);
        let next = if tmp.is_intersecting && (!best.is_intersecting || tmp.distance
            < best.distance) {
            tmp
        } else {
            best
        };
        spec_closest_from(objects, origin, dir, i + 1, next)
    }
}

/// The closest hit of the ray against the whole scene, or the empty
/// sentinel.
pub open spec fn spec_closest_hit(objects: Seq<Primitive>, origin: Vec3, dir: Vec3) -> Intersect {
    spec_closest_from(objects, origin, dir, 0, empty_intersect())
}

/// Scan all primitives for the closest positive-distance hit.
pub fn closest_hit(objects: &Vec<Primitive>, origin: &Vec3, dir: &Vec3) -> (r: Intersect)
    ensures
        r == spec_closest_hit(objects@, *origin, *dir),
{
    let mut best = Intersect::empty();
    let mut i: usize = 0;
    while i < objects.len()
        invariant
            0 <= i <= objects@.len(),
            spec_closest_from(objects@, *origin, *dir, i as int, best) == spec_closest_hit(
                objects@,
                *origin,
                *dir,
            ),
        decreases objects@.len() - i,
    {
        let tmp = objects[i].ray_intersect(origin, dir);
        if tmp.is_intersecting && (!best.is_intersecting || tmp.distance < best.distance) {
            best = tmp;
        }
        i = i + 1;
    }
    best
}

/// The nonnegative part of a value, as the lighting terms use it.
pub open spec fn spec_max0(x: int) -> int {
    if x > 0 {
        x
    } else {
        0
    }
}

/// Fixed-point power with a whole exponent, multiplying from the left in
/// the order the loop does (the order matters under truncation).
pub open spec fn spec_powi(base: int, e: nat) -> int
    decreases e,
{
    if e == 0 {
        FX_ONE as int
    } else {
        fx_mul_val(base, spec_powi(base, (e - 1) as nat))
    }
}

/// Fixed-point power with a whole exponent.
pub fn fx_powi(base: i64, e: u32) -> (r: i64)
    ensures
        r == spec_powi(base as int, e as nat),
{
    let mut acc: i64 = FX_ONE;
    let mut k: u32 = 0;
    while k < e
        invariant
            k <= e,
            acc == spec_powi(base as int, k as nat),
        decreases e - k,
    {
        acc = fx_mul(base, acc);
        k = k + 1;
    }
    acc
}

/// The Phong exponent a material's shininess denotes: its whole part,
/// never negative, capped at what a `u32` holds.
pub open spec fn spec_phong_exponent(specular: int) -> nat {
    if specular <= 0 {
        0
    } else {
        let q = specular / (FX_ONE as int);
        if q > 4294967295 {
            4294967295
        } else {
            q as nat
        }
    }
}

/// The whole part of a material's fixed-point shininess.
pub fn phong_exponent(specular: i64) -> (e: u32)
    ensures
        e as nat == spec_phong_exponent(specular as int),
{
    if specular <= 0 {
        return 0;
    }
    let q: u64 = (specular as u64) / 65536;
    if q > 4294967295 {
        4294967295
    } else {
        q as u32
    }
}

/// What `perturb_normal` returns: the geometric normal replaced by the
/// normal-map sample, carried from tangent space into world space by the
/// frame (tangent, bitangent, normal); absent or unknown maps leave the
/// geometric normal.
pub open spec fn spec_perturb_normal(tm: TextureManager, hit: Intersect) -> Vec3 {
    let normal = hit.normal;
    match hit.material.normal_map_id {
        Some(id) => {
            let t = tm.textures@[id as int];
            let tx = spec_tex_coord(hit.u as int, t.width as int);
            let ty = spec_tex_coord(hit.v as int, t.height as int);
            match spec_normal_from_map(tm, id as int, tx, ty) {
                Some(tn) => {
                    let tangent = Vec3 {
                        x: normal.y,
                        y: fx_neg_val(normal.x as int) as i64,
                        z: 0,
                    }.spec_normalized();
                    let bitangent = normal.spec_cross(tangent);
                    Vec3 {
                        x: fx_add_val(
                            fx_add_val(
                                fx_mul_val(tn.x as int, tangent.x as int),
                                fx_mul_val(tn.y as int, bitangent.x as int),
                            ),
                            fx_mul_val(tn.z as int, normal.x as int),
                        ) as i64,
                        y: fx_add_val(
                            fx_add_val(
                                fx_mul_val(tn.x as int, tangent.y as int),
                                fx_mul_val(tn.y as int, bitangent.y as int),
                            ),
                            fx_mul_val(tn.z as int, normal.y as int),
                        ) as i64,
                        z: fx_add_val(
                            fx_add_val(
                                fx_mul_val(tn.x as int, tangent.z as int),
                                fx_mul_val(tn.y as int, bitangent.z as int),
                            ),
                            fx_mul_val(tn.z as int, normal.z as int),
                        ) as i64,
                    }.spec_normalized()
                },
                None => normal,
            }
        },
        None => normal,
    }
}

/// Replace the geometric normal by the material's normal-map sample, if
/// it has one.
pub fn perturb_normal(tm: &TextureManager, hit: &Intersect) -> (r: Vec3)
    requires
        tm.wf(),
    ensures
        r == spec_perturb_normal(*tm, *hit),
{
    let normal = hit.normal;
    match hit.material.normal_map_id {
        Some(id) => {
            if id >= tm.texture_count() {
                return normal;
            }
            let w = tm.width_of(id);
            let h = tm.height_of(id);
            proof {
                assert(tm.textures@[id as int].wf());
            }
            let tx = tex_coord(hit.u, w);
            let ty = tex_coord(hit.v, h);
            match tm.get_normal_from_map(id, tx, ty) {
                Some(tn) => {
                    let tangent = Vec3 {
                        x: normal.y,
                        y: fx_neg(normal.x),
                        z: 0,
                    }.normalized();
                    let bitangent = normal.cross(&tangent);
                    Vec3 {
                        x: fx_add(
                            fx_add(fx_mul(tn.x, tangent.x), fx_mul(tn.y, bitangent.x)),
                            fx_mul(tn.z, normal.x),
                        ),
                        y: fx_add(
                            fx_add(fx_mul(tn.x, tangent.y), fx_mul(tn.y, bitangent.y)),
                            fx_mul(tn.z, normal.y),
                        ),
                        z: fx_add(
                            fx_add(fx_mul(tn.x, tangent.z), fx_mul(tn.y, bitangent.z)),
                            fx_mul(tn.z, normal.z),
                        ),
                    }.normalized()
                },
                None => normal,
            }
        },
        None => normal,
    }
}

/// What `diffuse_color` returns: the texture sample at the hit's surface
/// coordinates when the material has a texture, else its flat diffuse
/// color.
pub open spec fn spec_diffuse_color(tm: TextureManager, hit: Intersect) -> Vec3 {
    match hit.material.texture {
        Some(id) => {
            let t = tm.textures@[id as int];
            let tx = spec_tex_coord(hit.u as int, t.width as int);
            let ty = spec_tex_coord(hit.v as int, t.height as int);
            color_to_vector3_val(spec_texel(tm, id as int, tx, ty))
        },
        None => hit.material.diffuse,
    }
}

/// The base color lighting applies to: textured or flat.
pub fn diffuse_color(tm: &TextureManager, hit: &Intersect) -> (r: Vec3)
    requires
        tm.wf(),
        hit.material.texture matches Some(id) ==> id < tm.textures@.len(),
    ensures
        r == spec_diffuse_color(*tm, *hit),
{
    match hit.material.texture {
        Some(id) => {
            let w = tm.width_of(id);
            let h = tm.height_of(id);
            proof {
                assert(tm.textures@[id as int].wf());
            }
            let tx = tex_coord(hit.u, w);
            let ty = tex_coord(hit.v, h);
            let c = tm.get_pixel_color(id, tx, ty);
            let x: u64 = (c.r as u64) * 65536 / 255;
            let y: u64 = (c.g as u64) * 65536 / 255;
            let z: u64 = (c.b as u64) * 65536 / 255;
            Vec3 { x: x as i64, y: y as i64, z: z as i64 }
        },
        None => hit.material.diffuse,
    }
}

/// A material emits light when its emission is not the zero vector.
pub open spec fn spec_is_emissive(m: Material) -> bool {
    m.emission != (Vec3 { x: 0i64, y: 0i64, z: 0i64 })
}

/// The ephemeral point light an emissive primitive stands for: at the
/// primitive's centroid, colored by the normalized emission, with the
/// emission's magnitude as intensity.
pub open spec fn spec_derived_light(p: Primitive) -> Light {
    let e = spec_prim_material(p).emission;
    Light {
        position: spec_prim_center(p),
        color: e.spec_normalized(),
        intensity: e.spec_length() as i64,
    }
}

/// An emissive primitive whose centroid (nearly) coincides with the
/// shaded point is skipped, so its own glow cannot blow up.
pub open spec fn spec_skip_derived(p: Primitive, point: Vec3) -> bool {
    spec_prim_center(p).spec_vsub(point).spec_length() <= SHADOW_BIAS
}

/// The derived lights of the primitives from index `i` on, in scene
/// order.
pub open spec fn spec_derived_lights(objects: Seq<Primitive>, point: Vec3, i: int) -> Seq<Light>
    decreases objects.len() - i,
{
    if i < 0 || i >= objects.len() {
        Seq::empty()
    } else {
        let rest = spec_derived_lights(objects, point, i + 1);
        if spec_is_emissive(spec_prim_material(objects[i])) && !spec_skip_derived(
            objects[i],
            point,
        ) {
            seq![spec_derived_light(objects[i])] + rest
        } else {
            rest
        }
    }
}

/// Synthesize one ephemeral light per emissive primitive, skipping any
/// whose centroid is degenerately close to the shaded point.
pub fn derived_lights(objects: &Vec<Primitive>, point: &Vec3) -> (r: Vec<Light>)
    ensures
        r@ == spec_derived_lights(objects@, *point, 0),
{
    let mut lights: Vec<Light> = Vec::new();
    let mut i: usize = 0;
    while i < objects.len()
        invariant
            0 <= i <= objects@.len(),
            lights@ + spec_derived_lights(objects@, *point, i as int) == spec_derived_lights(
                objects@,
                *point,
                0,
            ),
        decreases objects@.len() - i,
    {
        let m = objects[i].material();
        let emissive = m.emission.x != 0 || m.emission.y != 0 || m.emission.z != 0;
        if emissive {
            let center = objects[i].center();
            let d = center.sub(point).length();
            if d > SHADOW_BIAS {
                let e = m.emission;
                let l = Light { position: center, color: e.normalized(), intensity: e.length() };
                proof {
                    assert(lights@.push(l) + spec_derived_lights(objects@, *point, i + 1)
                        =~= lights@ + (seq![l] + spec_derived_lights(objects@, *point, i + 1)));
                }
                lights.push(l);
            }
        }
        i = i + 1;
    }
    proof {
        assert(lights@ + spec_derived_lights(objects@, *point, objects@.len() as int) =~= lights@);
    }
    lights
}

/// One light's contribution at a hit: the shadow-attenuated diffuse
/// intensity, and the specular color vector from the Phong term.
pub open spec fn spec_light_contrib(
    objects: Seq<Primitive>,
    hit: Intersect,
    n_eff: Vec3,
    view: Vec3,
    l: Light,
) -> (int, Vec3) {
    let light_dir = l.position.spec_vsub(hit.point).spec_normalized();
    let refl_dir = spec_reflect(light_dir.spec_vneg(), n_eff).spec_normalized();
    let shadow = spec_cast_shadow(objects, hit, l);
    let li = fx_mul_val(l.intensity as int, fx_sub_val(FX_ONE as int, shadow));
    let diff = fx_mul_val(spec_max0(n_eff.spec_dot(light_dir)), li);
    let si = fx_mul_val(
        spec_powi(
            spec_max0(view.spec_dot(refl_dir)),
            spec_phong_exponent(hit.material.specular as int),
        ),
        li,
    );
    (diff, l.color.spec_scale(si))
}

/// The diffuse intensity and specular color accumulated over the lights
/// from index `k` on.
pub open spec fn spec_accum_from(
    objects: Seq<Primitive>,
    hit: Intersect,
    n_eff: Vec3,
    view: Vec3,
    lights: Seq<Light>,
    k: int,
    di: int,
    sv: Vec3,
) -> (int, Vec3)
    decreases lights.len() - k,
{
    if k < 0 || k >= lights.len() {
        (di, sv)
    } else {
        let c = spec_light_contrib(objects, hit, n_eff, view, lights[k]);
        spec_accum_from(
            objects,
            hit,
            n_eff,
            view,
            lights,
            k + 1,
            fx_add_val(di, c.0),
            sv.spec_vadd(c.1),
        )
    }
}

/// One light's contribution at a hit.
pub fn light_contrib(
    objects: &Vec<Primitive>,
    hit: &Intersect,
    n_eff: &Vec3,
    view: &Vec3,
    l: &Light,
) -> (r: (i64, Vec3))
    ensures
        r.0 == spec_light_contrib(objects@, *hit, *n_eff, *view, *l).0,
        r.1 == spec_light_contrib(objects@, *hit, *n_eff, *view, *l).1,
{
    let light_dir = l.position.sub(&hit.point).normalized();
    let refl_dir = reflect(&light_dir.neg(), n_eff).normalized();
    let shadow = cast_shadow(hit, l, objects);
    let li = fx_mul(l.intensity, fx_sub(FX_ONE, shadow));
    let nd = n_eff.dot(&light_dir);
    let nd0 = if nd > 0 {
        nd
    } else {
        0
    };
    let diff = fx_mul(nd0, li);
    let vd = view.dot(&refl_dir);
    let vd0 = if vd > 0 {
        vd
    } else {
        0
    };
    let e = phong_exponent(hit.material.specular);
    let si = fx_mul(fx_powi(vd0, e), li);
    (diff, l.color.scale(si))
}

/// Accumulate every light's diffuse intensity and specular color.
pub fn accumulate_lights(
    objects: &Vec<Primitive>,
    hit: &Intersect,
    n_eff: &Vec3,
    view: &Vec3,
    lights: &Vec<Light>,
) -> (r: (i64, Vec3))
    ensures
        r.0 == spec_accum_from(
            objects@,
            *hit,
            *n_eff,
            *view,
            lights@,
            0,
            0,
            Vec3 { x: 0i64, y: 0i64, z: 0i64 },
        ).0,
        r.1 == spec_accum_from(
            objects@,
            *hit,
            *n_eff,
            *view,
            lights@,
            0,
            0,
            Vec3 { x: 0i64, y: 0i64, z: 0i64 },
        ).1,
{
    let mut di: i64 = 0;
    let mut sv = Vec3 { x: 0, y: 0, z: 0 };
    let mut k: usize = 0;
    while k < lights.len()
        invariant
            0 <= k <= lights@.len(),
            spec_accum_from(objects@, *hit, *n_eff, *view, lights@, k as int, di as int, sv)
                == spec_accum_from(
                objects@,
                *hit,
                *n_eff,
                *view,
                lights@,
                0,
                0,
                Vec3 { x: 0i64, y: 0i64, z: 0i64 },
            ),
        decreases lights@.len() - k,
    {
        let c = light_contrib(objects, hit, n_eff, view, &lights[k]);
        di = fx_add(di, c.0);
        sv = sv.add(&c.1);
        k = k + 1;
    }
    (di, sv)
}

/// A material's texture references all point at textures the manager
/// knows.
pub open spec fn material_ids_valid(m: Material, tm: TextureManager) -> bool {
    &&& (m.texture matches Some(id) ==> id < tm.textures@.len())
    &&& (m.normal_map_id matches Some(id) ==> id < tm.textures@.len())
}

/// Every primitive's material refers only to textures the manager knows.
/// A scene that fails this is a configuration error, to be reported at
/// construction time — `validate_scene` checks it — never discovered
/// mid-render.
pub open spec fn scene_valid(objects: Seq<Primitive>, tm: TextureManager) -> bool {
    forall|i: int|
        0 <= i < objects.len() ==> material_ids_valid(spec_prim_material(#[trigger] objects[i]), tm)
}

/// Fail-fast configuration check: every texture and normal-map reference
/// in the scene resolves.
pub fn validate_scene(objects: &Vec<Primitive>, tm: &TextureManager) -> (r: bool)
    ensures
        r == scene_valid(objects@, *tm),
{
    let n = tm.texture_count();
    let mut i: usize = 0;
    while i < objects.len()
        invariant
            0 <= i <= objects@.len(),
            n == tm.textures@.len(),
            forall|j: int|
                0 <= j < i ==> material_ids_valid(spec_prim_material(#[trigger] objects@[j]), *tm),
        decreases objects@.len() - i,
    {
        let m = objects[i].material();
        match m.texture {
            Some(id) => {
                if id >= n {
                    return false;
                }
            },
            None => {},
        }
        match m.normal_map_id {
            Some(id) => {
                if id >= n {
                    return false;
                }
            },
            None => {},
        }
        i = i + 1;
    }
    true
}

/// A primitive's intersection carries either the primitive's own
/// material or the empty sentinel's all-black one.
proof fn lemma_prim_intersect_material(p: Primitive, origin: Vec3, dir: Vec3)
    ensures
        spec_prim_intersect(p, origin, dir).material == spec_prim_material(p)
            || spec_prim_intersect(p, origin, dir).material == crate::material::material_black(),
{
}

/// In a valid scene the closest hit's material refers only to known
/// textures, whichever primitive produced it.
proof fn lemma_closest_from_material(
    objects: Seq<Primitive>,
    origin: Vec3,
    dir: Vec3,
    i: int,
    best: Intersect,
    tm: TextureManager,
)
    requires
        scene_valid(objects, tm),
        material_ids_valid(best.material, tm),
    ensures
        material_ids_valid(spec_closest_from(objects, origin, dir, i, best).material, tm),
    decreases objects.len() - i,
{
    if i < 0 || i >= objects.len() {
    } else {
        let tmp = spec_prim_intersect(objects[i], origin, dir);
        lemma_prim_intersect_material(objects[i], origin, dir);
        let next = if tmp.is_intersecting && (!best.is_intersecting || tmp.distance
            < best.distance) {
            tmp
        } else {
            best
        };
        lemma_closest_from_material(objects, origin, dir, i + 1, next, tm);
    }
}

/// In a valid scene the closest hit's material refers only to known
/// textures.
pub proof fn lemma_closest_hit_material(
    objects: Seq<Primitive>,
    origin: Vec3,
    dir: Vec3,
    tm: TextureManager,
)
    requires
        scene_valid(objects, tm),
    ensures
        material_ids_valid(spec_closest_hit(objects, origin, dir).material, tm),
{
    lemma_closest_from_material(objects, origin, dir, 0, empty_intersect(), tm);
}

/// What `cast_ray` returns: the recursive Whitted shading of the closest
/// hit — emission, textured or flat diffuse weighted by the accumulated
/// light, the Phong specular sum, and the reflected and refracted
/// recursions weighted by the material — or the sky when the ray hits
/// nothing or the depth bound is passed.
pub open spec fn spec_cast_ray(
    origin: Vec3,
    dir: Vec3,
    objects: Seq<Primitive>,
    light: Light,
    depth: u32,
    tm: TextureManager,
) -> Vec3
    decreases DEPTH_LIMIT + 1 - depth,
{
    if depth > DEPTH_LIMIT {
        spec_sky(dir)
    } else {
        let hit = spec_closest_hit(objects, origin, dir);
        if !hit.is_intersecting {
            spec_sky(dir)
        } else {
            let n_eff = spec_perturb_normal(tm, hit);
            let view = origin.spec_vsub(hit.point).spec_normalized();
            let lights = seq![light] + spec_derived_lights(objects, hit.point, 0);
            let acc = spec_accum_from(
                objects,
                hit,
                n_eff,
                view,
                lights,
                0,
                0,
                Vec3 { x: 0, y: 0, z: 0 },
            );
            let dc = spec_diffuse_color(tm, hit);
            let refl_color = if hit.material.reflectivity > 0 {
                let rdir = spec_reflect(dir, n_eff);
                let rorig = spec_offset_origin(hit, rdir);
                spec_cast_ray(rorig, rdir, objects, light, (depth + 1) as u32, tm)
            } else {
                Vec3 { x: 0, y: 0, z: 0 }
            };
            let refr_color = if hit.material.transparency > 0 {
                let tdir = spec_refract(dir, n_eff, hit.material.refractive_index as int);
                let torig = spec_offset_origin(hit, tdir);
                spec_cast_ray(torig, tdir, objects, light, (depth + 1) as u32, tm)
            } else {
                Vec3 { x: 0, y: 0, z: 0 }
            };
            hit.material.emission.spec_vadd(
                dc.spec_scale(acc.0).spec_scale(hit.material.albedo[0] as int),
            ).spec_vadd(acc.1.spec_scale(hit.material.albedo[1] as int)).spec_vadd(
                refl_color.spec_scale(hit.material.reflectivity as int),
            ).spec_vadd(refr_color.spec_scale(hit.material.transparency as int))
        }
    }
}

/// Trace one ray through the scene. The recursion is bounded by
/// `DEPTH_LIMIT`, so tracing a perfect mirror still terminates, and the
/// result is always a finite linear color.
pub fn cast_ray(
    ray_origin: &Vec3,
    ray_direction: &Vec3,
    objects: &Vec<Primitive>,
    light: &Light,
    depth: u32,
    texture_manager: &TextureManager,
) -> (r: Vec3)
    requires
        texture_manager.wf(),
        scene_valid(objects@, *texture_manager),
    ensures
        r == spec_cast_ray(
            *ray_origin,
            *ray_direction,
            objects@,
            *light,
            depth,
            *texture_manager,
        ),
    decreases DEPTH_LIMIT + 1 - depth,
{
    if depth > DEPTH_LIMIT {
        return procedural_sky(ray_direction);
    }
    let intersect = closest_hit(objects, ray_origin, ray_direction);
    if !intersect.is_intersecting {
        return procedural_sky(ray_direction);
    }
    proof {
        lemma_closest_hit_material(objects@, *ray_origin, *ray_direction, *texture_manager);
    }
    let normal = perturb_normal(texture_manager, &intersect);
    let view = ray_origin.sub(&intersect.point).normalized();
    let mut lights: Vec<Light> = Vec::new();
    lights.push(*light);
    let mut derived = derived_lights(objects, &intersect.point);
    lights.append(&mut derived);
    proof {
        assert(lights@ =~= seq![*light] + spec_derived_lights(objects@, intersect.point, 0));
    }
    let acc = accumulate_lights(objects, &intersect, &normal, &view, &lights);
    let dc = diffuse_color(texture_manager, &intersect);
    let reflectivity = intersect.material.reflectivity;
    let reflection_color = if reflectivity > 0 {
        let reflect_direction = reflect(ray_direction, &normal);
        let reflect_origin = offset_origin(&intersect, &reflect_direction);
        cast_ray(&reflect_origin, &reflect_direction, objects, light, depth + 1, texture_manager)
    } else {
        Vec3 { x: 0, y: 0, z: 0 }
    };
    let transparency = intersect.material.transparency;
    let refraction_color = if transparency > 0 {
        let refract_direction = refract(
            ray_direction,
            &normal,
            intersect.material.refractive_index,
        );
        let refract_origin = offset_origin(&intersect, &refract_direction);
        cast_ray(&refract_origin, &refract_direction, objects, light, depth + 1, texture_manager)
    } else {
        Vec3 { x: 0, y: 0, z: 0 }
    };
    let a0 = intersect.material.albedo[0];
    let a1 = intersect.material.albedo[1];
    intersect.material.emission.add(&dc.scale(acc.0).scale(a0)).add(&acc.1.scale(a1)).add(
        &reflection_color.scale(reflectivity),
    ).add(&refraction_color.scale(transparency))
}

/// The recursion base: any ray past the depth bound contributes exactly
/// an environment sample, never further recursion — which, with the
/// decreasing depth measure on `spec_cast_ray` and `cast_ray`, bounds a
/// trace of any scene, a perfect mirror included, to `DEPTH_LIMIT + 1`
/// nested calls.
pub proof fn lemma_depth_bound_returns_sky(
    origin: Vec3,
    dir: Vec3,
    objects: Seq<Primitive>,
    light: Light,
    depth: u32,
    tm: TextureManager,
)
    requires
        depth > DEPTH_LIMIT,
    ensures
        spec_cast_ray(origin, dir, objects, light, depth, tm) == spec_sky(dir),
{
}

/// One vector is componentwise at most another.
pub open spec fn vec_le(a: Vec3, b: Vec3) -> bool {
    a.x <= b.x && a.y <= b.y && a.z <= b.z
}

/// Raising `reflectivity` while holding everything else fixed never
/// darkens the result: with the same nonnegative reflected color and the
/// same other terms, the combined color of `cast_ray`'s final step —
/// `base + reflection * reflectivity + refraction_term` — grows
/// monotonically, componentwise, in the reflectivity weight.
pub proof fn lemma_reflection_term_monotone(
    base: Vec3,
    refl_color: Vec3,
    refr_term: Vec3,
    r1: int,
    r2: int,
)
    requires
        refl_color.x >= 0,
        refl_color.y >= 0,
        refl_color.z >= 0,
        0 <= r1 <= r2,
    ensures
        vec_le(
            base.spec_vadd(refl_color.spec_scale(r1)).spec_vadd(refr_term),
            base.spec_vadd(refl_color.spec_scale(r2)).spec_vadd(refr_term),
        ),
{
    lemma_fx_mul_monotone(refl_color.x as int, r1, r2);
    lemma_fx_mul_monotone(refl_color.y as int, r1, r2);
    lemma_fx_mul_monotone(refl_color.z as int, r1, r2);
}

/// Field-of-view scaling: the tangent of half the 60-degree field of
/// view, in fixed point.
pub const PERSPECTIVE_SCALE: i64 = 37837;

/// What `render_pixel` returns: pixel (x, y) mapped to normalized device
/// coordinates, scaled by aspect ratio and field of view, sent through
/// the camera basis, traced from the eye at depth zero, and clamped to a
/// display color.
pub open spec fn spec_render_pixel(
    x: int,
    y: int,
    width: int,
    height: int,
    objects: Seq<Primitive>,
    camera: Camera,
    light: Light,
    tm: TextureManager,
) -> Color {
    let aspect = fx_div_val(fx_of_val(width), fx_of_val(height));
    let sx0 = fx_sub_val(fx_div_val(fx_of_val(2 * x), fx_of_val(width)), FX_ONE as int);
    let sy0 = fx_add_val(
        fx_neg_val(fx_div_val(fx_of_val(2 * y), fx_of_val(height))),
        FX_ONE as int,
    );
    let sx = fx_mul_val(fx_mul_val(sx0, aspect), PERSPECTIVE_SCALE as int);
    let sy = fx_mul_val(sy0, PERSPECTIVE_SCALE as int);
    let rd = Vec3 { x: sx as i64, y: sy as i64, z: (-FX_ONE) as i64 }.spec_normalized();
    let rotated = spec_basis_change(camera, rd);
    vector3_to_color_val(spec_cast_ray(camera.eye, rotated, objects, light, 0, tm))
}

/// Trace the single pixel (x, y) of a width-by-height frame. Every pixel
/// is an independent pure function of the scene snapshot, so a host may
/// compute pixels in any order, or in parallel.
pub fn render_pixel(
    x: i32,
    y: i32,
    width: i32,
    height: i32,
    objects: &Vec<Primitive>,
    camera: &Camera,
    light: &Light,
    texture_manager: &TextureManager,
) -> (c: Color)
    requires
        texture_manager.wf(),
        scene_valid(objects@, *texture_manager),
    ensures
        c == spec_render_pixel(
            x as int,
            y as int,
            width as int,
            height as int,
            objects@,
            *camera,
            *light,
            *texture_manager,
        ),
{
    let aspect = fx_div(fx_of_i64(width as i64), fx_of_i64(height as i64));
    let sx0 = fx_sub(fx_div(fx_of_i64(2 * (x as i64)), fx_of_i64(width as i64)), FX_ONE);
    let sy0 = fx_add(fx_neg(fx_div(fx_of_i64(2 * (y as i64)), fx_of_i64(height as i64))), FX_ONE);
    let sx = fx_mul(fx_mul(sx0, aspect), PERSPECTIVE_SCALE);
    let sy = fx_mul(sy0, PERSPECTIVE_SCALE);
    let rd = Vec3 { x: sx, y: sy, z: -FX_ONE }.normalized();
    let rotated = camera.basis_change(&rd);
    let v = cast_ray(&camera.eye, &rotated, objects, light, 0, texture_manager);
    vector3_to_color(v)
}

/// Render a full frame: one display color per pixel, row-major, pixel
/// (x, y) at index `x + y * width`.
pub fn render(
    width: i32,
    height: i32,
    objects: &Vec<Primitive>,
    camera: &Camera,
    light: &Light,
    texture_manager: &TextureManager,
) -> (frame: Vec<Color>)
    requires
        width >= 0,
        height >= 0,
        texture_manager.wf(),
        scene_valid(objects@, *texture_manager),
    ensures
        frame@.len() == (height as int) * (width as int),
        forall|j: int|
            0 <= j < frame@.len() ==> frame@[j] == spec_render_pixel(
                j % (width as int),
                j / (width as int),
                width as int,
                height as int,
                objects@,
                *camera,
                *light,
                *texture_manager,
            ),
{
    let mut frame: Vec<Color> = Vec::new();
    let mut y: i32 = 0;
    while y < height
        invariant
            0 <= y <= height,
            width >= 0,
            texture_manager.wf(),
            scene_valid(objects@, *texture_manager),
            frame@.len() == (y as int) * (width as int),
            forall|j: int|
                0 <= j < frame@.len() ==> frame@[j] == spec_render_pixel(
                    j % (width as int),
                    j / (width as int),
                    width as int,
                    height as int,
                    objects@,
                    *camera,
                    *light,
                    *texture_manager,
                ),
        decreases height - y,
    {
        let mut x: i32 = 0;
        while x < width
            invariant
                0 <= y < height,
                0 <= x <= width,
                texture_manager.wf(),
                scene_valid(objects@, *texture_manager),
                frame@.len() == (y as int) * (width as int) + (x as int),
                forall|j: int|
                    0 <= j < frame@.len() ==> frame@[j] == spec_render_pixel(
                        j % (width as int),
                        j / (width as int),
                        width as int,
                        height as int,
                        objects@,
                        *camera,
                        *light,
                        *texture_manager,
                    ),
            decreases width - x,
        {
            let c = render_pixel(x, y, width, height, objects, camera, light, texture_manager);
            proof {
                vstd::arithmetic::div_mod::lemma_fundamental_div_mod_converse(
                    (y as int) * (width as int) + (x as int),
                    width as int,
                    y as int,
                    x as int,
                );
            }
            frame.push(c);
            x = x + 1;
        }
        proof {
            assert((y as int) * (width as int) + (width as int) == ((y as int) + 1) * (
            width as int)) by (nonlinear_arith);
        }
        y = y + 1;
    }
    proof {
        assert((height as int) * (width as int) == frame@.len());
    }
    frame
}

} // verus!
