use rendercore::camera::{Angle, Camera, Projection};
use rendercore::matrix::mat_mul;
use rendercore::rational::Rat;
use rendercore::vector::Vec3r;

fn pythagorean_camera() -> Camera {
    // Yaw and pitch as exact points on the unit circle (3-4-5 triangles),
    // eye at (1, 2, 3) / 2.
    let yaw = Angle::new(3, 4, 5).unwrap();
    let pitch = Angle::new(4, 3, 5).unwrap();
    let position = Vec3r::new(1, 2, 3, 2);
    Camera::new(position, yaw, pitch).unwrap()
}

#[test]
fn angle_accepts_exact_circle_points() {
    assert!(Angle::new(3, 4, 5).is_some());
    assert!(Angle::new(-3, 4, 5).is_some());
    assert!(Angle::new(1, 0, 1).is_some());
}

#[test]
fn angle_rejects_points_off_the_circle() {
    assert!(Angle::new(3, 4, 6).is_none());
    assert!(Angle::new(1, 1, 1).is_none());
    assert!(Angle::new(0, 0, 0).is_none());
    assert!(Angle::new(3, 4, -5).is_none());
    // Over the representation bound.
    assert!(Angle::new(65537 * 3, 65537 * 4, 65537 * 5).is_none());
}

#[test]
fn camera_rejects_pitch_at_the_pole() {
    let yaw = Angle::new(3, 4, 5).unwrap();
    let pole = Angle { cos: 0, sin: 1, den: 1 };
    assert!(Camera::new(Vec3r::new(0, 0, 0, 1), yaw, pole).is_none());
}

#[test]
fn view_matrix_times_inverse_is_identity_exactly() {
    let camera = pythagorean_camera();
    let view = camera.calc_view_matrix();
    let inverse = camera.calc_view_matrix_inverse();
    let m = mat_mul(&view, &inverse);
    // The product is the identity scaled by its own denominator.
    assert_eq!(m.e00, m.den);
    assert_eq!(m.e11, m.den);
    assert_eq!(m.e22, m.den);
    assert_eq!(m.e33, m.den);
    for off in [
        m.e01, m.e02, m.e03, m.e10, m.e12, m.e13, m.e20, m.e21, m.e23, m.e30, m.e31, m.e32,
    ] {
        assert_eq!(off, 0);
    }
    assert!(m.den > 0);
}

#[test]
fn view_matrix_rotation_rows_are_unit_length() {
    let camera = pythagorean_camera();
    let view = camera.calc_view_matrix();
    let den2 = view.den * view.den;
    assert_eq!(view.e00 * view.e00 + view.e01 * view.e01 + view.e02 * view.e02, den2);
    assert_eq!(view.e10 * view.e10 + view.e11 * view.e11 + view.e12 * view.e12, den2);
    assert_eq!(view.e20 * view.e20 + view.e21 * view.e21 + view.e22 * view.e22, den2);
}

#[test]
fn projection_accepts_valid_configuration() {
    let p = Projection::new(
        1920,
        1200,
        Rat::new(1, 1),
        Rat::new(1, 10),
        Rat::new(100, 1),
    );
    assert!(p.is_some());
}

#[test]
fn projection_rejects_near_not_below_far() {
    assert!(Projection::new(
        100,
        100,
        Rat::new(1, 1),
        Rat::new(100, 1),
        Rat::new(1, 10),
    )
    .is_none());
    assert!(Projection::new(100, 100, Rat::new(1, 1), Rat::new(1, 1), Rat::new(1, 1)).is_none());
}

#[test]
fn projection_rejects_zero_viewport() {
    assert!(Projection::new(0, 100, Rat::new(1, 1), Rat::new(1, 10), Rat::new(100, 1)).is_none());
    assert!(Projection::new(100, 0, Rat::new(1, 1), Rat::new(1, 10), Rat::new(100, 1)).is_none());
}

#[test]
fn resize_with_zero_dimension_is_a_no_op() {
    let mut p = Projection::new(
        1920,
        1200,
        Rat::new(1, 1),
        Rat::new(1, 10),
        Rat::new(100, 1),
    )
    .unwrap();
    p.resize(0, 700);
    assert_eq!(p.width, 1920);
    assert_eq!(p.height, 1200);
    p.resize(700, 0);
    assert_eq!(p.width, 1920);
    assert_eq!(p.height, 1200);
}

#[test]
fn resize_with_valid_dimensions_updates_only_the_viewport() {
    let mut p = Projection::new(
        1920,
        1200,
        Rat::new(1, 1),
        Rat::new(1, 10),
        Rat::new(100, 1),
    )
    .unwrap();
    p.resize(800, 600);
    assert_eq!(p.width, 800);
    assert_eq!(p.height, 600);
    assert_eq!(p.near.num, 1);
    assert_eq!(p.near.den, 10);
    assert_eq!(p.far.num, 100);
    assert_eq!(p.focal.num, 1);
}

#[test]
fn perspective_matrix_square_viewport_unit_focal() {
    // focal = 1 (a 90 degree vertical field of view), square viewport:
    // the lateral scales are exactly one.
    let p = Projection::new(100, 100, Rat::new(1, 1), Rat::new(1, 10), Rat::new(100, 1)).unwrap();
    let m = p.calc_projection_matrix();
    assert!(m.den > 0);
    assert_eq!(m.e00, m.den);
    assert_eq!(m.e11, m.den);
    // Depth row, compared cross-multiplied: with near = 1/10, far = 100,
    // e22/den == -(far + near)/(far - near) == -1001/999 and
    // e23/den == -2 far near / (far - near) == -200/999.
    assert_eq!(m.e22 * 999, -1001 * m.den);
    assert_eq!(m.e23 * 999, -200 * m.den);
    assert_eq!(m.e32, -m.den);
    assert_eq!(m.e33, 0);
}
