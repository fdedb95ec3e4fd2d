use raytracer::camera::Camera;
use raytracer::ray_intersect::Intersect;
use raytracer::tracer::{diffuse_color, perturb_normal};
use raytracer::color::Color;
use raytracer::fx::{FX_ONE, FX_PI};
use raytracer::framebuffer::Framebuffer;
use raytracer::light::Light;
use raytracer::material::Material;
use raytracer::sphere::Sphere;
use raytracer::textures::{tex_coord, TextureManager};
use raytracer::tracer::{render, render_pixel, Primitive};
use raytracer::vec3::Vec3;

#[test]
fn camera_basis_for_straight_ahead_view() {
    let cam = Camera::new(Vec3::zero(), Vec3::new(0, 0, -FX_ONE), Vec3::new(0, FX_ONE, 0));
    assert_eq!(cam.forward, Vec3::new(0, 0, -FX_ONE));
    assert_eq!(cam.right, Vec3::new(FX_ONE, 0, 0));
    assert_eq!(cam.up, Vec3::new(0, FX_ONE, 0));
    // Camera space maps -z to forward, so the identity basis passes
    // directions through unchanged.
    let d = Vec3::new(12345, -6789, -FX_ONE);
    assert_eq!(cam.basis_change(&d), d);
}

#[test]
fn camera_zoom_moves_along_forward_and_clamps() {
    let mut cam = Camera::new(Vec3::new(0, 0, 5 * FX_ONE), Vec3::zero(), Vec3::new(0, FX_ONE, 0));
    cam.zoom(FX_ONE);
    assert_eq!(cam.eye, Vec3::new(0, 0, 4 * FX_ONE));
    // Zooming the whole remaining distance would cross the look-at
    // point; the eye stays put instead.
    cam.zoom(5 * FX_ONE);
    assert_eq!(cam.eye, Vec3::new(0, 0, 4 * FX_ONE));
}

#[test]
fn camera_orbit_half_turn_crosses_the_scene() {
    let mut cam = Camera::new(Vec3::new(0, 0, 5 * FX_ONE), Vec3::zero(), Vec3::new(0, FX_ONE, 0));
    cam.orbit(FX_PI, 0);
    // Half a turn about world up carries the eye to the far side, up to
    // the trig approximation and grid rounding.
    assert!((cam.eye.z + 5 * FX_ONE).abs() < 6554, "{:?}", cam.eye);
    assert!(cam.eye.x.abs() < 6554, "{:?}", cam.eye);
    assert_eq!(cam.eye.y, 0);
}

#[test]
fn camera_move_vertical_shifts_eye_and_center() {
    let mut cam = Camera::new(Vec3::new(0, 0, 5 * FX_ONE), Vec3::zero(), Vec3::new(0, FX_ONE, 0));
    cam.move_vertical(2 * FX_ONE);
    assert_eq!(cam.eye.y, 2 * FX_ONE);
    assert_eq!(cam.center.y, 2 * FX_ONE);
}

#[test]
fn texture_lookup_clamps_to_the_grid() {
    let mut tm = TextureManager::new();
    let pixels = vec![
        Color::new(10, 0, 0, 255),
        Color::new(20, 0, 0, 255),
        Color::new(30, 0, 0, 255),
        Color::new(40, 0, 0, 255),
    ];
    let id = tm.add_texture(2, 2, pixels).unwrap();
    assert_eq!(tm.get_pixel_color(id, 0, 0), Color::new(10, 0, 0, 255));
    assert_eq!(tm.get_pixel_color(id, 1, 0), Color::new(20, 0, 0, 255));
    assert_eq!(tm.get_pixel_color(id, 0, 1), Color::new(30, 0, 0, 255));
    // Coordinates past the edge take the last pixel.
    assert_eq!(tm.get_pixel_color(id, 9, 9), Color::new(40, 0, 0, 255));
}

#[test]
fn texture_with_wrong_pixel_count_is_rejected() {
    let mut tm = TextureManager::new();
    assert!(tm.add_texture(2, 2, vec![Color::new(0, 0, 0, 255)]).is_none());
    assert!(tm.add_texture(0, 4, vec![]).is_none());
    assert_eq!(tm.texture_count(), 0);
}

#[test]
fn normal_map_decodes_to_signed_components() {
    let mut tm = TextureManager::new();
    let id = tm.add_texture(1, 1, vec![Color::new(255, 128, 0, 255)]).unwrap();
    let n = tm.get_normal_from_map(id, 0, 0).unwrap();
    assert_eq!(n, Vec3::new(FX_ONE, 257, -FX_ONE));
    assert!(tm.get_normal_from_map(7, 0, 0).is_none());
}

#[test]
fn tex_coord_scales_and_saturates() {
    assert_eq!(tex_coord(32768, 4), 2);
    assert_eq!(tex_coord(0, 4), 0);
    assert_eq!(tex_coord(-FX_ONE, 4), 0);
    assert_eq!(tex_coord(FX_ONE, 4), 3);
    assert_eq!(tex_coord(FX_ONE / 4, 4), 1);
}

#[test]
fn framebuffer_set_and_get() {
    let mut fb = Framebuffer::new(4, 3);
    assert_eq!(fb.get_pixel_color(0, 0), Some(Color::new(0, 0, 0, 255)));
    fb.set_current_color(Color::new(1, 2, 3, 255));
    fb.set_pixel(2, 1);
    assert_eq!(fb.get_pixel_color(2, 1), Some(Color::new(1, 2, 3, 255)));
    assert_eq!(fb.get_pixel_color(3, 2), Some(Color::new(0, 0, 0, 255)));
    // Out-of-bounds access is ignored or None, never a fault.
    fb.set_pixel(-1, 0);
    fb.set_pixel(4, 0);
    assert_eq!(fb.get_pixel_color(4, 0), None);
    assert_eq!(fb.get_pixel_color(0, -1), None);
}

#[test]
fn framebuffer_clear_repaints_with_background() {
    let mut fb = Framebuffer::new(2, 2);
    fb.set_current_color(Color::new(9, 9, 9, 255));
    fb.set_pixel(0, 0);
    fb.set_background_color(Color::new(5, 6, 7, 255));
    fb.clear();
    assert_eq!(fb.get_pixel_color(0, 0), Some(Color::new(5, 6, 7, 255)));
    assert_eq!(fb.get_pixel_color(1, 1), Some(Color::new(5, 6, 7, 255)));
}

#[test]
fn camera_with_coincident_eye_and_center_degrades_quietly() {
    let cam = Camera::new(Vec3::zero(), Vec3::zero(), Vec3::new(0, FX_ONE, 0));
    // A degenerate view direction normalizes to the zero vector instead
    // of failing; the basis collapses but stays defined.
    assert_eq!(cam.forward, Vec3::zero());
    assert_eq!(cam.right, Vec3::zero());
}

#[test]
fn diffuse_color_samples_the_textured_face() {
    let mut tm = TextureManager::new();
    let pixels = vec![
        Color::new(255, 0, 0, 255),
        Color::new(0, 255, 0, 255),
        Color::new(0, 0, 255, 255),
        Color::new(255, 255, 0, 255),
    ];
    let id = tm.add_texture(2, 2, pixels).unwrap();
    let mut m = Material::new(Vec3::new(FX_ONE, FX_ONE, FX_ONE), [FX_ONE, 0], FX_ONE);
    m.texture = Some(id);
    // Surface coordinates (0.75, 0.625) land on texel (1, 1): yellow.
    let hit = Intersect::new(m, FX_ONE, Vec3::new(0, 0, FX_ONE), Vec3::zero(), 49152, 40960);
    let c = diffuse_color(&tm, &hit);
    assert_eq!(c, Vec3::new(FX_ONE, FX_ONE, 0));
}

#[test]
fn flat_normal_map_keeps_the_geometric_normal() {
    let mut tm = TextureManager::new();
    // The neutral tangent-space sample (128, 128, 255) points straight
    // out of the surface.
    let id = tm.add_texture(1, 1, vec![Color::new(128, 128, 255, 255)]).unwrap();
    let mut m = Material::new(Vec3::new(FX_ONE, 0, 0), [FX_ONE, 0], FX_ONE);
    m.normal_map_id = Some(id);
    let hit = Intersect::new(m, FX_ONE, Vec3::new(0, 0, FX_ONE), Vec3::zero(), 0, 0);
    assert_eq!(perturb_normal(&tm, &hit), Vec3::new(0, 0, FX_ONE));
    // Without a map the geometric normal passes through untouched.
    let bare = Intersect::new(
        Material::new(Vec3::new(FX_ONE, 0, 0), [FX_ONE, 0], FX_ONE),
        FX_ONE,
        Vec3::new(0, FX_ONE, 0),
        Vec3::zero(),
        0,
        0,
    );
    assert_eq!(perturb_normal(&tm, &bare), Vec3::new(0, FX_ONE, 0));
}

fn simple_scene() -> (Vec<Primitive>, Camera, Light, TextureManager) {
    let red = Material::new(Vec3::new(FX_ONE, 0, 0), [52429, 13107], 10 * FX_ONE);
    let objects = vec![
        Primitive::Sphere(Sphere::new(Vec3::new(0, 0, -5 * FX_ONE), FX_ONE, red)),
    ];
    let camera = Camera::new(Vec3::zero(), Vec3::new(0, 0, -FX_ONE), Vec3::new(0, FX_ONE, 0));
    let light = Light::new(
        Vec3::new(0, 5 * FX_ONE, 0),
        Vec3::new(FX_ONE, FX_ONE, FX_ONE),
        98304,
    );
    (objects, camera, light, TextureManager::new())
}

#[test]
fn end_to_end_center_pixel_is_red_dominant() {
    let (objects, camera, light, tm) = simple_scene();
    let frame = render(4, 4, &objects, &camera, &light, &tm);
    assert_eq!(frame.len(), 16);
    // The center pixel (2, 2) looks straight down -z at the sphere.
    let c = frame[2 * 4 + 2];
    assert!(c.r > c.g && c.r > c.b, "center pixel {c:?}");
    assert!(c.r > 60, "center pixel should be lit: {c:?}");
    // A corner pixel misses the sphere and shows the sky, which is not
    // red-dominant.
    let sky = frame[0];
    assert!(sky.g >= sky.r, "corner pixel {sky:?}");
}

#[test]
fn render_matches_render_pixel_row_major() {
    let (objects, camera, light, tm) = simple_scene();
    let frame = render(3, 2, &objects, &camera, &light, &tm);
    assert_eq!(frame.len(), 6);
    for y in 0..2 {
        for x in 0..3 {
            let single = render_pixel(x, y, 3, 2, &objects, &camera, &light, &tm);
            assert_eq!(frame[(y * 3 + x) as usize], single, "pixel ({x}, {y})");
        }
    }
}

#[test]
fn render_of_empty_frame() {
    let (objects, camera, light, tm) = simple_scene();
    assert_eq!(render(0, 5, &objects, &camera, &light, &tm).len(), 0);
    assert_eq!(render(5, 0, &objects, &camera, &light, &tm).len(), 0);
}
