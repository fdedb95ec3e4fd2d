use raytracer::cube::Cube;
use raytracer::fx::{FX_ONE, FX_PI};
use raytracer::light::Light;
use raytracer::material::Material;
use raytracer::ray_intersect::Intersect;
use raytracer::snell::{reflect, refract};
use raytracer::sphere::Sphere;
use raytracer::textures::TextureManager;
use raytracer::tracer::{
    cast_ray, cast_shadow, derived_lights, fx_powi, offset_origin, phong_exponent,
    procedural_sky, validate_scene, Primitive, SHADOW_OPACITY,
};
use raytracer::vec3::Vec3;

fn red_material() -> Material {
    Material::new(Vec3::new(FX_ONE, 0, 0), [52429, 13107], 10 * FX_ONE)
}

fn front_hit_on_unit_sphere() -> Intersect {
    // The visible front point of a unit sphere at the origin, as seen
    // from +z: point (0, 0, 1) with outward normal +z.
    Intersect::new(
        red_material(),
        4 * FX_ONE,
        Vec3::new(0, 0, FX_ONE),
        Vec3::new(0, 0, FX_ONE),
        0,
        0,
    )
}

#[test]
fn unoccluded_point_casts_no_shadow() {
    let objects = vec![Primitive::Sphere(Sphere::new(Vec3::zero(), FX_ONE, red_material()))];
    let light = Light::new(Vec3::new(0, 0, 5 * FX_ONE), Vec3::new(FX_ONE, FX_ONE, FX_ONE), 98304);
    let hit = front_hit_on_unit_sphere();
    assert_eq!(cast_shadow(&hit, &light, &objects), 0);
}

#[test]
fn occluded_point_gets_the_fixed_attenuation() {
    let blocker = Cube::new(Vec3::new(0, 0, 3 * FX_ONE), FX_ONE, red_material());
    let objects = vec![
        Primitive::Sphere(Sphere::new(Vec3::zero(), FX_ONE, red_material())),
        Primitive::Cube(blocker),
    ];
    let light = Light::new(Vec3::new(0, 0, 5 * FX_ONE), Vec3::new(FX_ONE, FX_ONE, FX_ONE), 98304);
    let hit = front_hit_on_unit_sphere();
    assert_eq!(cast_shadow(&hit, &light, &objects), SHADOW_OPACITY);
}

#[test]
fn blocker_beyond_the_light_does_not_shadow() {
    let beyond = Cube::new(Vec3::new(0, 0, 8 * FX_ONE), FX_ONE, red_material());
    let objects = vec![Primitive::Cube(beyond)];
    let light = Light::new(Vec3::new(0, 0, 5 * FX_ONE), Vec3::new(FX_ONE, FX_ONE, FX_ONE), 98304);
    let hit = front_hit_on_unit_sphere();
    assert_eq!(cast_shadow(&hit, &light, &objects), 0);
}

#[test]
fn offset_origin_moves_off_the_surface() {
    let hit = front_hit_on_unit_sphere();
    // A ray leaving along the normal is offset outward...
    let out = offset_origin(&hit, &Vec3::new(0, 0, FX_ONE));
    assert_eq!(out, Vec3::new(0, 0, FX_ONE + 7));
    // ...one entering against it, inward.
    let inward = offset_origin(&hit, &Vec3::new(0, 0, -FX_ONE));
    assert_eq!(inward, Vec3::new(0, 0, FX_ONE - 7));
}

#[test]
fn reflect_mirrors_about_the_normal() {
    let r = reflect(&Vec3::new(0, 0, -FX_ONE), &Vec3::new(0, 0, FX_ONE));
    assert_eq!(r, Vec3::new(0, 0, FX_ONE));
}

#[test]
fn refract_straight_through_matched_media() {
    // Index 1.0: the ray passes undeflected (up to the fixed-point grid).
    let d = Vec3::new(0, 0, -FX_ONE);
    let n = Vec3::new(0, 0, FX_ONE);
    let t = refract(&d, &n, FX_ONE);
    assert!((t.x).abs() <= 2 && (t.y).abs() <= 2 && (t.z + FX_ONE).abs() <= 2, "{t:?}");
}

#[test]
fn total_internal_reflection_falls_back_to_reflection() {
    // Exiting glass (index 1.5) at a grazing angle: sin^2 of the
    // transmitted angle exceeds one, so the ray reflects instead.
    let d = Vec3::new(52429, 0, 39322);
    let n = Vec3::new(0, 0, FX_ONE);
    assert_eq!(refract(&d, &n, 98304), reflect(&d, &n));
}

#[test]
fn sky_bands_by_height() {
    // Straight up: the top band, solid blue.
    assert_eq!(procedural_sky(&Vec3::new(0, FX_ONE, 0)), Vec3::new(19661, 32768, FX_ONE));
    // Straight down: the bottom of the gradient, solid green.
    assert_eq!(procedural_sky(&Vec3::new(0, -FX_ONE, 0)), Vec3::new(6554, 39322, 13107));
}

#[test]
fn derived_lights_come_from_emissive_primitives() {
    let mut glow = red_material();
    glow.emission = Vec3::new(0, 3 * FX_ONE, 4 * FX_ONE);
    let objects = vec![
        Primitive::Cube(Cube::new(Vec3::new(0, 5 * FX_ONE, 0), FX_ONE, glow)),
        Primitive::Sphere(Sphere::new(Vec3::zero(), FX_ONE, red_material())),
    ];
    let lights = derived_lights(&objects, &Vec3::new(0, 0, FX_ONE));
    assert_eq!(lights.len(), 1);
    assert_eq!(lights[0].position, Vec3::new(0, 5 * FX_ONE, 0));
    assert_eq!(lights[0].intensity, 5 * FX_ONE);
    // Color is the normalized emission: (0, 0.6, 0.8) on the grid.
    assert_eq!(lights[0].color, Vec3::new(0, 39321, 52428));
}

#[test]
fn derived_light_at_the_shaded_point_is_skipped() {
    let mut glow = red_material();
    glow.emission = Vec3::new(FX_ONE, FX_ONE, FX_ONE);
    let p = Vec3::new(0, 5 * FX_ONE, 0);
    let objects = vec![Primitive::Cube(Cube::new(p, FX_ONE, glow))];
    let lights = derived_lights(&objects, &p);
    assert_eq!(lights.len(), 0);
}

#[test]
fn validate_scene_fails_fast_on_unknown_texture() {
    let mut m = red_material();
    m.texture = Some(0);
    let objects = vec![Primitive::Sphere(Sphere::new(Vec3::zero(), FX_ONE, m))];
    let empty = TextureManager::new();
    assert!(!validate_scene(&objects, &empty));
    let mut tm = TextureManager::new();
    let id = tm.add_texture(1, 1, vec![raytracer::color::Color::new(9, 9, 9, 255)]);
    assert_eq!(id, Some(0));
    assert!(validate_scene(&objects, &tm));
}

#[test]
fn reflection_contribution_grows_with_reflectivity() {
    // One mirror-ish sphere under the open sky; raising reflectivity
    // while everything else is fixed must not darken any channel.
    let tm = TextureManager::new();
    let light = Light::new(
        Vec3::new(5 * FX_ONE, 5 * FX_ONE, 5 * FX_ONE),
        Vec3::new(FX_ONE, FX_ONE, FX_ONE),
        98304,
    );
    let origin = Vec3::new(0, 0, 5 * FX_ONE);
    let dir = Vec3::new(0, 0, -FX_ONE);
    let mut previous: Option<Vec3> = None;
    for refl in [0, 13107, 32768, 52429, FX_ONE] {
        let mut m = red_material();
        m.reflectivity = refl;
        let objects = vec![Primitive::Sphere(Sphere::new(Vec3::zero(), FX_ONE, m))];
        let c = cast_ray(&origin, &dir, &objects, &light, 0, &tm);
        if let Some(p) = previous {
            assert!(c.x >= p.x && c.y >= p.y && c.z >= p.z, "{p:?} -> {c:?}");
        }
        previous = Some(c);
    }
}

#[test]
fn perfect_mirror_terminates_within_the_depth_bound() {
    // Two facing mirrors: tracing still returns, because recursion is
    // cut off at the depth bound, and twice over the same scene gives
    // the same finite color.
    let mut mirror = red_material();
    mirror.reflectivity = FX_ONE;
    let objects = vec![
        Primitive::Cube(Cube::new(Vec3::new(0, 0, -3 * FX_ONE), 2 * FX_ONE, mirror)),
        Primitive::Cube(Cube::new(Vec3::new(0, 0, 3 * FX_ONE), 2 * FX_ONE, mirror)),
    ];
    let tm = TextureManager::new();
    let light = Light::new(Vec3::new(0, 5 * FX_ONE, 0), Vec3::new(FX_ONE, FX_ONE, FX_ONE), 98304);
    let origin = Vec3::zero();
    let dir = Vec3::new(0, 0, -FX_ONE);
    let a = cast_ray(&origin, &dir, &objects, &light, 0, &tm);
    let b = cast_ray(&origin, &dir, &objects, &light, 0, &tm);
    assert_eq!(a, b);
}

#[test]
fn depth_beyond_the_bound_returns_the_sky() {
    let objects = vec![Primitive::Sphere(Sphere::new(Vec3::zero(), FX_ONE, red_material()))];
    let tm = TextureManager::new();
    let light = Light::new(Vec3::new(0, 5 * FX_ONE, 0), Vec3::new(FX_ONE, FX_ONE, FX_ONE), 98304);
    let dir = Vec3::new(0, FX_ONE, 0);
    let c = cast_ray(&Vec3::new(0, 0, 5 * FX_ONE), &dir, &objects, &light, 2, &tm);
    assert_eq!(c, procedural_sky(&dir));
}

#[test]
fn emission_is_added_to_the_result() {
    let mut glow = red_material();
    glow.emission = Vec3::new(0, 0, 3 * FX_ONE);
    glow.albedo = [0, 0];
    let objects = vec![Primitive::Sphere(Sphere::new(Vec3::zero(), FX_ONE, glow))];
    let tm = TextureManager::new();
    let light = Light::new(Vec3::new(0, 5 * FX_ONE, 0), Vec3::new(FX_ONE, FX_ONE, FX_ONE), 0);
    let c = cast_ray(&Vec3::new(0, 0, 5 * FX_ONE), &Vec3::new(0, 0, -FX_ONE), &objects, &light, 0, &tm);
    assert!(c.z >= 3 * FX_ONE, "{c:?}");
}

#[test]
fn phong_power_on_the_grid() {
    assert_eq!(fx_powi(32768, 0), FX_ONE);
    assert_eq!(fx_powi(32768, 1), 32768);
    assert_eq!(fx_powi(32768, 2), 16384);
    assert_eq!(fx_powi(FX_ONE, 125), FX_ONE);
    assert_eq!(phong_exponent(10 * FX_ONE), 10);
    assert_eq!(phong_exponent(-5), 0);
    assert_eq!(phong_exponent(FX_ONE / 2), 0);
}

#[test]
fn sin_is_odd_around_pi() {
    // A spot check that the shading-adjacent trig keeps its sign
    // convention: sin just past pi is negative.
    assert!(raytracer::fx::fx_sin(FX_PI + 2000) < 0);
}
