use raytracer::color::{color_to_vector3, vector3_to_color, Color};
use raytracer::fx::FX_ONE;
use raytracer::vec3::Vec3;

#[test]
fn dot_and_cross_of_axes() {
    let x = Vec3::new(FX_ONE, 0, 0);
    let y = Vec3::new(0, FX_ONE, 0);
    let z = Vec3::new(0, 0, FX_ONE);
    assert_eq!(x.dot(&x), FX_ONE);
    assert_eq!(x.dot(&y), 0);
    assert_eq!(x.cross(&y), z);
    assert_eq!(y.cross(&z), x);
    assert_eq!(z.cross(&x), y);
    assert_eq!(y.cross(&x), z.neg());
}

#[test]
fn vector_arithmetic() {
    let a = Vec3::new(FX_ONE, 2 * FX_ONE, -3 * FX_ONE);
    let b = Vec3::new(4 * FX_ONE, -5 * FX_ONE, 6 * FX_ONE);
    assert_eq!(a.add(&b), Vec3::new(5 * FX_ONE, -3 * FX_ONE, 3 * FX_ONE));
    assert_eq!(a.sub(&b), Vec3::new(-3 * FX_ONE, 7 * FX_ONE, -9 * FX_ONE));
    assert_eq!(a.scale(2 * FX_ONE), Vec3::new(2 * FX_ONE, 4 * FX_ONE, -6 * FX_ONE));
    assert_eq!(a.neg(), Vec3::new(-FX_ONE, -2 * FX_ONE, 3 * FX_ONE));
}

#[test]
fn length_of_pythagorean_triple() {
    let v = Vec3::new(3 * FX_ONE, 4 * FX_ONE, 0);
    assert_eq!(v.length(), 5 * FX_ONE);
}

#[test]
fn normalized_divides_by_length() {
    let v = Vec3::new(3 * FX_ONE, 4 * FX_ONE, 0);
    let n = v.normalized();
    // 0.6 and 0.8, truncated toward zero on the fixed-point grid.
    assert_eq!(n, Vec3::new(39321, 52428, 0));
    assert_eq!(Vec3::zero().normalized(), Vec3::zero());
}

#[test]
fn unit_axis_normalizes_to_itself() {
    let v = Vec3::new(0, 0, FX_ONE);
    assert_eq!(v.normalized(), v);
}

#[test]
fn color_clamps_on_both_sides() {
    let v = Vec3::new(2 * FX_ONE, -FX_ONE, 32768);
    assert_eq!(vector3_to_color(v), Color::new(255, 0, 128, 255));
}

#[test]
fn color_round_trip_preserves_every_byte() {
    for c in 0..=255u8 {
        let col = Color::new(c, 255 - c, c / 2, 255);
        let back = vector3_to_color(color_to_vector3(col));
        assert_eq!(back, col);
    }
}

#[test]
fn color_of_unit_white() {
    let v = Vec3::new(FX_ONE, FX_ONE, FX_ONE);
    assert_eq!(vector3_to_color(v), Color::new(255, 255, 255, 255));
}
