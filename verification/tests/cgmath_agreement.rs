//! The exact rational matrices agree with the floating-point matrices
//! the device layer builds with cgmath, within float tolerance.

use cgmath::{Matrix4, Point3, Vector3};
use rendercore::camera::{Angle, Camera, Projection};
use rendercore::matrix::Mat4;
use rendercore::rational::Rat;
use rendercore::shadow_render_system::ShadowRenderSystem;
use rendercore::vector::Vec3r;

const TOLERANCE: f64 = 1e-4;

/// Reads entry (row, col) of the rational matrix as a float.
fn entry(m: &Mat4, row: usize, col: usize) -> f64 {
    let nums = [
        [m.e00, m.e01, m.e02, m.e03],
        [m.e10, m.e11, m.e12, m.e13],
        [m.e20, m.e21, m.e22, m.e23],
        [m.e30, m.e31, m.e32, m.e33],
    ];
    nums[row][col] as f64 / m.den as f64
}

fn assert_matches(ours: &Mat4, theirs: &Matrix4<f32>) {
    for row in 0..4 {
        for col in 0..4 {
            // cgmath stores column-major: [col][row].
            let t = theirs[col][row] as f64;
            let o = entry(ours, row, col);
            assert!(
                (o - t).abs() < TOLERANCE,
                "entry ({row}, {col}): ours {o}, cgmath {t}"
            );
        }
    }
}

#[test]
fn orthographic_light_projection_matches_cgmath() {
    let sys = ShadowRenderSystem::new(8, 20, -10, 100, vec![(0, 0)]).unwrap();
    let ours = sys.get_projection_matrix();
    let theirs: Matrix4<f32> = cgmath::ortho(-20.0, 20.0, -20.0, 20.0, -10.0, 100.0);
    assert_matches(&ours, &theirs);
}

#[test]
fn perspective_projection_matches_cgmath() {
    // focal == 1 is a 90 degree vertical field of view.
    let p = Projection::new(1920, 1200, Rat::new(1, 1), Rat::new(1, 10), Rat::new(100, 1))
        .unwrap();
    let ours = p.calc_projection_matrix();
    let theirs: Matrix4<f32> =
        cgmath::perspective(cgmath::Deg(90.0f32), 1920.0 / 1200.0, 0.1, 100.0);
    assert_matches(&ours, &theirs);
}

#[test]
fn view_matrix_matches_cgmath_look_to() {
    // Yaw and pitch as exact 3-4-5 circle points; the same pose handed
    // to cgmath through its floating-point look-to.
    let camera = Camera::new(
        Vec3r::new(1, 2, 3, 2),
        Angle::new(3, 4, 5).unwrap(),
        Angle::new(4, 3, 5).unwrap(),
    )
    .unwrap();
    let ours = camera.calc_view_matrix();
    let (cy, sy) = (3.0f32 / 5.0, 4.0f32 / 5.0);
    let (cp, sp) = (4.0f32 / 5.0, 3.0f32 / 5.0);
    let dir = Vector3::new(cp * cy, sp, cp * sy);
    let theirs: Matrix4<f32> = Matrix4::look_to_rh(
        Point3::new(0.5, 1.0, 1.5),
        dir,
        Vector3::unit_y(),
    );
    assert_matches(&ours, &theirs);
}

#[test]
fn light_view_basis_matches_cgmath_look_at_rows() {
    // The normalized basis vectors are the rotation rows of cgmath's
    // look-at matrix from the light toward the origin: row 0 the side,
    // row 1 the up, row 2 the negated look vector.
    let sys = ShadowRenderSystem::new(8, 20, -10, 100, vec![(0, 0)]).unwrap();
    let light = Vec3r::new(3, 50, 4, 1);
    let basis = sys.get_view_basis(&light);
    let theirs: Matrix4<f32> = Matrix4::look_at_rh(
        Point3::new(3.0, 50.0, 4.0),
        Point3::new(0.0, 0.0, 0.0),
        Vector3::unit_y(),
    );
    let rows = [
        [basis.side.x, basis.side.y, basis.side.z],
        [basis.up.x, basis.up.y, basis.up.z],
        [-basis.forward.x, -basis.forward.y, -basis.forward.z],
    ];
    for (r, row) in rows.iter().enumerate() {
        let len = ((row[0] * row[0] + row[1] * row[1] + row[2] * row[2]) as f64).sqrt();
        for (c, num) in row.iter().enumerate() {
            let ours = *num as f64 / len;
            let theirs_rc = theirs[c][r] as f64;
            assert!(
                (ours - theirs_rc).abs() < TOLERANCE,
                "row {r}, col {c}: ours {ours}, cgmath {theirs_rc}"
            );
        }
    }
}
