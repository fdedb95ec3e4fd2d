use raytracer::cube::Cube;
use raytracer::fx::FX_ONE;
use raytracer::material::Material;
use raytracer::ray_intersect::{Intersect, RayIntersect};
use raytracer::sphere::Sphere;
use raytracer::vec3::Vec3;

fn plain_material() -> Material {
    Material::new(Vec3::new(FX_ONE, 0, 0), [52429, 13107], 10 * FX_ONE)
}

#[test]
fn sphere_axial_hit_at_distance_four() {
    let s = Sphere::new(Vec3::zero(), FX_ONE, plain_material());
    let origin = Vec3::new(0, 0, 5 * FX_ONE);
    let dir = Vec3::new(0, 0, -FX_ONE);
    let hit = s.ray_intersect(&origin, &dir);
    assert!(hit.is_intersecting);
    assert_eq!(hit.distance, 4 * FX_ONE);
    assert_eq!(hit.normal, Vec3::new(0, 0, FX_ONE));
    assert_eq!(hit.point, Vec3::new(0, 0, FX_ONE));
}

#[test]
fn sphere_miss_outside_silhouette() {
    // A ray along -z, three units off the sphere's axis, misses for any
    // radius smaller than the lateral offset.
    let origin = Vec3::new(3 * FX_ONE, 0, 5 * FX_ONE);
    let dir = Vec3::new(0, 0, -FX_ONE);
    for radius in [FX_ONE / 2, FX_ONE, 2 * FX_ONE, 3 * FX_ONE - 300] {
        let s = Sphere::new(Vec3::zero(), radius, plain_material());
        let hit = s.ray_intersect(&origin, &dir);
        assert!(!hit.is_intersecting, "radius {radius} should miss");
        let back = s.ray_intersect(&origin, &Vec3::new(0, 0, FX_ONE));
        assert!(!back.is_intersecting, "radius {radius} should miss in +z too");
    }
}

#[test]
fn sphere_degenerate_inputs_miss() {
    let s = Sphere::new(Vec3::zero(), FX_ONE, plain_material());
    let origin = Vec3::new(0, 0, 5 * FX_ONE);
    // Zero-length direction and nonpositive radius both degrade to a miss.
    let hit = s.ray_intersect(&origin, &Vec3::zero());
    assert!(!hit.is_intersecting);
    let flat = Sphere::new(Vec3::zero(), 0, plain_material());
    let hit2 = flat.ray_intersect(&origin, &Vec3::new(0, 0, -FX_ONE));
    assert!(!hit2.is_intersecting);
}

#[test]
fn sphere_behind_origin_misses() {
    let s = Sphere::new(Vec3::new(0, 0, 5 * FX_ONE), FX_ONE, plain_material());
    let hit = s.ray_intersect(&Vec3::zero(), &Vec3::new(0, 0, -FX_ONE));
    assert!(!hit.is_intersecting);
}

#[test]
fn cube_entry_face_normals_are_axis_aligned() {
    let c = Cube::new(Vec3::new(0, 0, -5 * FX_ONE), 2 * FX_ONE, plain_material());
    let axes = [
        (Vec3::new(0, 0, 0), Vec3::new(0, 0, -FX_ONE), Vec3::new(0, 0, FX_ONE)),
        (Vec3::new(5 * FX_ONE, 0, -5 * FX_ONE), Vec3::new(-FX_ONE, 0, 0), Vec3::new(FX_ONE, 0, 0)),
        (Vec3::new(-5 * FX_ONE, 0, -5 * FX_ONE), Vec3::new(FX_ONE, 0, 0), Vec3::new(-FX_ONE, 0, 0)),
        (Vec3::new(0, 5 * FX_ONE, -5 * FX_ONE), Vec3::new(0, -FX_ONE, 0), Vec3::new(0, FX_ONE, 0)),
        (Vec3::new(0, -5 * FX_ONE, -5 * FX_ONE), Vec3::new(0, FX_ONE, 0), Vec3::new(0, -FX_ONE, 0)),
        (Vec3::new(0, 0, -10 * FX_ONE), Vec3::new(0, 0, FX_ONE), Vec3::new(0, 0, -FX_ONE)),
    ];
    for (origin, dir, expected_normal) in axes {
        let hit = c.ray_intersect(&origin, &dir);
        assert!(hit.is_intersecting, "ray from {origin:?} should hit");
        assert_eq!(hit.normal, expected_normal, "entry normal from {origin:?}");
    }
}

#[test]
fn cube_hit_distance_on_axis() {
    let c = Cube::new(Vec3::new(0, 0, -5 * FX_ONE), 2 * FX_ONE, plain_material());
    let hit = c.ray_intersect(&Vec3::zero(), &Vec3::new(0, 0, -FX_ONE));
    assert!(hit.is_intersecting);
    assert_eq!(hit.distance, 4 * FX_ONE);
    assert_eq!(hit.point, Vec3::new(0, 0, -4 * FX_ONE));
}

#[test]
fn cube_miss_off_axis() {
    let c = Cube::new(Vec3::new(0, 0, -5 * FX_ONE), 2 * FX_ONE, plain_material());
    let hit = c.ray_intersect(&Vec3::new(3 * FX_ONE, 0, 0), &Vec3::new(0, 0, -FX_ONE));
    assert!(!hit.is_intersecting);
    // Parallel ray outside a slab misses outright.
    let hit2 = c.ray_intersect(&Vec3::new(3 * FX_ONE, 0, 0), &Vec3::new(0, FX_ONE, 0));
    assert!(!hit2.is_intersecting);
}

#[test]
fn cube_front_face_uv() {
    let c = Cube::new(Vec3::new(0, 0, -2 * FX_ONE), 2 * FX_ONE, plain_material());
    // Entry on the +z face at (0.5, 0.25) above the face's min corner.
    let origin = Vec3::new(32768, 16384, 5 * FX_ONE);
    let hit = c.ray_intersect(&origin, &Vec3::new(0, 0, -FX_ONE));
    assert!(hit.is_intersecting);
    assert_eq!(hit.normal, Vec3::new(0, 0, FX_ONE));
    // rel.x = 0.5 + 1.0 over size 2.0 -> u = 0.75; rel.y likewise -> v = 0.625.
    assert_eq!(hit.u, 49152);
    assert_eq!(hit.v, 40960);
}

#[test]
fn cube_degenerate_size_misses() {
    let c = Cube::new(Vec3::zero(), 0, plain_material());
    let hit = c.ray_intersect(&Vec3::new(0, 0, 5 * FX_ONE), &Vec3::new(0, 0, -FX_ONE));
    assert!(!hit.is_intersecting);
}

#[test]
fn empty_intersect_is_not_shadeable() {
    let e = Intersect::empty();
    assert!(!e.is_intersecting);
    assert_eq!(e.distance, 0);
    assert_eq!(e.material.diffuse, Vec3::zero());
    assert_eq!(e.material.albedo, [0, 0]);
    assert!(e.material.texture.is_none());
}

#[test]
fn material_constructors() {
    let m = Material::new(Vec3::new(1, 2, 3), [4, 5], 6);
    assert_eq!(m.diffuse, Vec3::new(1, 2, 3));
    assert_eq!(m.albedo, [4, 5]);
    assert_eq!(m.specular, 6);
    assert_eq!(m.reflectivity, 0);
    assert_eq!(m.transparency, 0);
    assert_eq!(m.emission, Vec3::zero());
    let b = Material::black();
    assert_eq!(b.diffuse, Vec3::zero());
    assert_eq!(b.specular, 0);
}
