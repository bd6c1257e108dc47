//! Camera pose and projection.
//!
//! The camera looks along a direction given by a yaw and a pitch.  Each
//! angle is held as an exact point on the unit circle: a `(cos, sin)`
//! numerator pair over a positive denominator with
//! `cos^2 + sin^2 == den^2`, so the rotation rows of the view matrix are
//! exactly unit length and the view matrix has an exact inverse.  The
//! pitch is clamped away from straight up and straight down
//! (`cos > 0`), which keeps the horizontal basis vector well defined.
//!
//! The projection holds the viewport size, the cotangent of half the
//! vertical field of view, and the near and far clip distances, with
//! `0 < near < far` established at construction.

use crate::matrix::gmat_apply;
use crate::matrix::gmat_mul;
use crate::matrix::lemma_distribute3;
use crate::matrix::lemma_mul_comm;
use crate::matrix::lemma_mul_pairings;
use crate::matrix::lemma_neg_mul;
use crate::matrix::lemma_scale_eq2;
use crate::matrix::lemma_scale_eq3;
use crate::matrix::GMat;
use crate::matrix::Mat4;
use crate::rational::Rat;
use crate::vector::Vec3r;
use vstd::prelude::*;

verus! {

/// Magnitude bound on angle denominators: keeps every view-matrix
/// numerator product inside the executable matrix bound.
pub const ANGLE_DEN_BOUND: i64 = 65536;

/// Magnitude bound on position numerators and denominators.
pub const POSITION_BOUND: i64 = 1048576;

/// Magnitude bound on projection rationals (focal, near, far).
pub const PROJECTION_PARAM_BOUND: i64 = 1024;

/// Largest viewport side length the exact model accepts.
pub const MAX_VIEWPORT_DIM: u32 = 32768;

/// An exact point on the unit circle: `cos/den`, `sin/den`.
#[derive(Clone, Copy, Debug)]
pub struct Angle {
    pub cos: i64,
    pub sin: i64,
    pub den: i64,
}

impl Angle {
    /// On the unit circle, positive denominator, within the model bound.
    pub open spec fn wf(self) -> bool {
        &&& 0 < self.den <= ANGLE_DEN_BOUND
        &&& self.cos * self.cos + self.sin * self.sin == self.den * self.den
    }

    /// The angle of measure zero.
    pub fn zero() -> (r: Angle)
        ensures
            r.wf(),
            r.cos == 1 && r.sin == 0 && r.den == 1,
    {
        Angle { cos: 1, sin: 0, den: 1 }
    }

    /// Accepts exactly the representations on the unit circle within the
    /// model bound.
    pub fn new(cos: i64, sin: i64, den: i64) -> (r: Option<Angle>)
        ensures
            r is Some <==> (Angle { cos, sin, den }).wf(),
            r is Some ==> r.unwrap() == (Angle { cos, sin, den }),
    {
        proof {
            if (Angle { cos, sin, den }).wf() {
                lemma_circle_component_bounds(cos as int, sin as int, den as int);
            }
        }
        if den > 0 && den <= ANGLE_DEN_BOUND && -den <= cos && cos <= den && -den <= sin
            && sin <= den {
            proof {
                crate::matrix::lemma_mul_magnitude_bound(cos as int, cos as int, 65536, 65536);
                crate::matrix::lemma_mul_magnitude_bound(sin as int, sin as int, 65536, 65536);
                crate::matrix::lemma_mul_magnitude_bound(den as int, den as int, 65536, 65536);
            }
            let c2: i128 = (cos as i128) * (cos as i128);
            let s2: i128 = (sin as i128) * (sin as i128);
            let d2: i128 = (den as i128) * (den as i128);
            if c2 + s2 == d2 {
                Some(Angle { cos, sin, den })
            } else {
                None
            }
        } else {
            None
        }
    }
}

/// On the unit circle the components are bounded by the denominator.
pub proof fn lemma_circle_component_bounds(c: int, s: int, d: int)
    by (nonlinear_arith)
    requires
        c * c + s * s == d * d,
        d > 0,
    ensures
        -d <= c <= d,
        -d <= s <= d,
{
}

/// Viewer pose: position, yaw and pitch over the fixed up axis `+y`.
#[derive(Clone, Copy, Debug)]
pub struct Camera {
    pub position: Vec3r,
    pub yaw: Angle,
    pub pitch: Angle,
}

impl Camera {
    /// Valid pose: angles on the unit circle, pitch clamped short of the
    /// poles, position within the model bound.
    pub open spec fn wf(self) -> bool {
        &&& self.yaw.wf()
        &&& self.pitch.wf()
        &&& self.pitch.cos > 0
        &&& self.position.wf()
        &&& self.position.bounded(POSITION_BOUND as int)
    }

    /// Accepts exactly the valid poses.
    pub fn new(position: Vec3r, yaw: Angle, pitch: Angle) -> (r: Option<Camera>)
        ensures
            r is Some <==> (Camera { position, yaw, pitch }).wf(),
            r is Some ==> r.unwrap() == (Camera { position, yaw, pitch }),
    {
        let c = Camera { position, yaw, pitch };
        let yaw_ok = Angle::new(yaw.cos, yaw.sin, yaw.den).is_some();
        let pitch_ok = Angle::new(pitch.cos, pitch.sin, pitch.den).is_some();
        let pos_ok = position.den > 0 && position.den <= POSITION_BOUND
            && -POSITION_BOUND <= position.x && position.x <= POSITION_BOUND
            && -POSITION_BOUND <= position.y && position.y <= POSITION_BOUND
            && -POSITION_BOUND <= position.z && position.z <= POSITION_BOUND;
        if yaw_ok && pitch_ok && pitch.cos > 0 && pos_ok {
            Some(c)
        } else {
            None
        }
    }

    /// The right-handed look-to view matrix of this pose.
    ///
    /// The look direction is
    /// `(cos pitch * cos yaw, sin pitch, cos pitch * sin yaw)` and the up
    /// axis is `+y`; rows are the side, up and negated look vectors with
    /// the translation that carries the eye to the origin.
    pub fn calc_view_matrix(&self) -> (r: Mat4)
        requires
            self.wf(),
        ensures
            r.view() == gview(
                self.yaw.cos as int, self.yaw.sin as int, self.yaw.den as int,
                self.pitch.cos as int, self.pitch.sin as int, self.pitch.den as int,
                self.position.x as int, self.position.y as int, self.position.z as int,
                self.position.den as int,
            ),
            r.wf(),
    {
        let cy = self.yaw.cos;
        let sy = self.yaw.sin;
        let dy = self.yaw.den;
        let cp = self.pitch.cos;
        let sp = self.pitch.sin;
        let dp = self.pitch.den;
        let ex = self.position.x;
        let ey = self.position.y;
        let ez = self.position.z;
        let de = self.position.den;
        proof {
            lemma_circle_component_bounds(cy as int, sy as int, dy as int);
            lemma_circle_component_bounds(cp as int, sp as int, dp as int);
            crate::rational::lemma_pos_mul_pos(dy as int, dp as int);
            crate::rational::lemma_pos_mul_pos((dy as int) * (dp as int), de as int);
            crate::matrix::lemma_neg_mul((sy as int) * (dp as int), de as int);
            crate::matrix::lemma_neg_mul((sy as int) * (dp as int), ex as int);
            crate::matrix::lemma_neg_mul((cy as int) * (sp as int), de as int);
            crate::matrix::lemma_neg_mul((sy as int) * (sp as int), de as int);
            crate::matrix::lemma_neg_mul((cy as int) * (sp as int), ex as int);
            crate::matrix::lemma_neg_mul((sy as int) * (sp as int), ez as int);
            crate::matrix::lemma_neg_mul((cp as int) * (cy as int), de as int);
            crate::matrix::lemma_neg_mul((sp as int) * (dy as int), de as int);
            crate::matrix::lemma_neg_mul((cp as int) * (sy as int), de as int);
            crate::matrix::lemma_neg_mul((cp as int) * (cy as int), ex as int);
            crate::matrix::lemma_neg_mul((sp as int) * (dy as int), ey as int);
            crate::matrix::lemma_neg_mul((cp as int) * (sy as int), ez as int);
        }
        Mat4 {
            e00: -mul3(sy, dp, de),
            e01: 0,
            e02: mul3(cy, dp, de),
            e03: mul3(sy, dp, ex) - mul3(cy, dp, ez),
            e10: -mul3(cy, sp, de),
            e11: mul3(cp, dy, de),
            e12: -mul3(sy, sp, de),
            e13: mul3(cy, sp, ex) - mul3(cp, dy, ey) + mul3(sy, sp, ez),
            e20: -mul3(cp, cy, de),
            e21: -mul3(sp, dy, de),
            e22: -mul3(cp, sy, de),
            e23: mul3(cp, cy, ex) + mul3(sp, dy, ey) + mul3(cp, sy, ez),
            e30: 0,
            e31: 0,
            e32: 0,
            e33: mul3(dy, dp, de),
            den: mul3(dy, dp, de),
        }
    }

    /// The exact inverse of `calc_view_matrix`: transposed rotation rows
    /// as columns, with the eye position as the translation.
    pub fn calc_view_matrix_inverse(&self) -> (r: Mat4)
        requires
            self.wf(),
        ensures
            r.view() == gview_inverse(
                self.yaw.cos as int, self.yaw.sin as int, self.yaw.den as int,
                self.pitch.cos as int, self.pitch.sin as int, self.pitch.den as int,
                self.position.x as int, self.position.y as int, self.position.z as int,
                self.position.den as int,
            ),
            r.wf(),
    {
        let cy = self.yaw.cos;
        let sy = self.yaw.sin;
        let dy = self.yaw.den;
        let cp = self.pitch.cos;
        let sp = self.pitch.sin;
        let dp = self.pitch.den;
        let ex = self.position.x;
        let ey = self.position.y;
        let ez = self.position.z;
        let de = self.position.den;
        proof {
            lemma_circle_component_bounds(cy as int, sy as int, dy as int);
            lemma_circle_component_bounds(cp as int, sp as int, dp as int);
            crate::rational::lemma_pos_mul_pos(dy as int, dp as int);
            crate::rational::lemma_pos_mul_pos((dy as int) * (dp as int), de as int);
            crate::matrix::lemma_neg_mul((sy as int) * (dp as int), de as int);
            crate::matrix::lemma_neg_mul((cy as int) * (sp as int), de as int);
            crate::matrix::lemma_neg_mul((cp as int) * (cy as int), de as int);
            crate::matrix::lemma_neg_mul((sp as int) * (dy as int), de as int);
            crate::matrix::lemma_neg_mul((sy as int) * (sp as int), de as int);
            crate::matrix::lemma_neg_mul((cp as int) * (sy as int), de as int);
            crate::matrix::lemma_mul_assoc(ex as int, dy as int, dp as int);
            crate::matrix::lemma_mul_assoc(ey as int, dy as int, dp as int);
            crate::matrix::lemma_mul_assoc(ez as int, dy as int, dp as int);
        }
        Mat4 {
            e00: -mul3(sy, dp, de),
            e01: -mul3(cy, sp, de),
            e02: -mul3(cp, cy, de),
            e03: mul3(ex, dy, dp),
            e10: 0,
            e11: mul3(cp, dy, de),
            e12: -mul3(sp, dy, de),
            e13: mul3(ey, dy, dp),
            e20: mul3(cy, dp, de),
            e21: -mul3(sy, sp, de),
            e22: -mul3(cp, sy, de),
            e23: mul3(ez, dy, dp),
            e30: 0,
            e31: 0,
            e32: 0,
            e33: mul3(dy, dp, de),
            den: mul3(dy, dp, de),
        }
    }
}

/// Product of three bounded `i64` factors, exactly, without overflow.
fn mul3(a: i64, b: i64, c: i64) -> (r: i128)
    requires
        -POSITION_BOUND <= a as int <= POSITION_BOUND,
        -POSITION_BOUND <= b as int <= POSITION_BOUND,
        -POSITION_BOUND <= c as int <= POSITION_BOUND,
    ensures
        r == a * b * c,
        -0x1000_0000_0000_0000 <= r as int <= 0x1000_0000_0000_0000,
{
    proof {
        crate::matrix::lemma_mul_magnitude_bound(
            a as int, b as int, POSITION_BOUND as int, POSITION_BOUND as int);
        crate::matrix::lemma_mul_magnitude_bound(
            (a * b) as int, c as int, (POSITION_BOUND * POSITION_BOUND) as int, POSITION_BOUND as int);
    }
    ((a as i128) * (b as i128)) * (c as i128)
}

/// The ghost affine view matrix built from abstract rotation rows.
///
/// Rows `(r00, r01, r02)`, `(r10, r11, r12)`, `(r20, r21, r22)` are the
/// side, up and negated look vectors over the common denominator `rd`;
/// the eye sits at `(ex, ey, ez) / de`.  The translation column carries
/// the eye to the origin; the shared denominator is `rd * de`.
pub open spec fn gview_from_rows(
    r00: int, r01: int, r02: int,
    r10: int, r11: int, r12: int,
    r20: int, r21: int, r22: int,
    ex: int, ey: int, ez: int, de: int, rd: int,
) -> GMat {
    GMat {
        e00: r00 * de,
        e01: r01 * de,
        e02: r02 * de,
        e03: -(r00 * ex + r01 * ey + r02 * ez),
        e10: r10 * de,
        e11: r11 * de,
        e12: r12 * de,
        e13: -(r10 * ex + r11 * ey + r12 * ez),
        e20: r20 * de,
        e21: r21 * de,
        e22: r22 * de,
        e23: -(r20 * ex + r21 * ey + r22 * ez),
        e30: 0,
        e31: 0,
        e32: 0,
        e33: rd * de,
        den: rd * de,
    }
}

/// The ghost inverse of `gview_from_rows`: rotation transposed, eye
/// restored as the translation column.
pub open spec fn gview_inverse_from_rows(
    r00: int, r01: int, r02: int,
    r10: int, r11: int, r12: int,
    r20: int, r21: int, r22: int,
    ex: int, ey: int, ez: int, de: int, rd: int,
) -> GMat {
    GMat {
        e00: r00 * de,
        e01: r10 * de,
        e02: r20 * de,
        e03: ex * rd,
        e10: r01 * de,
        e11: r11 * de,
        e12: r21 * de,
        e13: ey * rd,
        e20: r02 * de,
        e21: r12 * de,
        e22: r22 * de,
        e23: ez * rd,
        e30: 0,
        e31: 0,
        e32: 0,
        e33: rd * de,
        den: rd * de,
    }
}

/// The ghost view matrix of a pose given by yaw `(cy, sy)/dy`, pitch
/// `(cp, sp)/dp` and eye `(ex, ey, ez)/de`.
///
/// The side vector is `(-sy, 0, cy) / dy`, the up vector
/// `(-cy sp, cp dy, -sy sp) / (dy dp)` and the look vector
/// `(cp cy, sp dy, cp sy) / (dy dp)`, all exactly unit length when the
/// angles lie on the unit circle.
pub open spec fn gview(
    cy: int, sy: int, dy: int,
    cp: int, sp: int, dp: int,
    ex: int, ey: int, ez: int, de: int,
) -> GMat {
    gview_from_rows(
        -(sy * dp), 0, cy * dp,
        -(cy * sp), cp * dy, -(sy * sp),
        -(cp * cy), -(sp * dy), -(cp * sy),
        ex, ey, ez, de, dy * dp,
    )
}

/// The ghost inverse of `gview`.
pub open spec fn gview_inverse(
    cy: int, sy: int, dy: int,
    cp: int, sp: int, dp: int,
    ex: int, ey: int, ez: int, de: int,
) -> GMat {
    gview_inverse_from_rows(
        -(sy * dp), 0, cy * dp,
        -(cy * sp), cp * dy, -(sy * sp),
        -(cp * cy), -(sp * dy), -(cp * sy),
        ex, ey, ez, de, dy * dp,
    )
}

/// Any affine view matrix whose rotation rows form an orthogonal basis of
/// common squared length, composed with its transposed-and-translated
/// inverse, is the identity.
proof fn lemma_rigid_view_product(
    r00: int, r01: int, r02: int,
    r10: int, r11: int, r12: int,
    r20: int, r21: int, r22: int,
    ex: int, ey: int, ez: int, de: int, rd: int,
)
    requires
        r00 * r00 + r01 * r01 + r02 * r02 == rd * rd,
        r10 * r10 + r11 * r11 + r12 * r12 == rd * rd,
        r20 * r20 + r21 * r21 + r22 * r22 == rd * rd,
        r00 * r10 + r01 * r11 + r02 * r12 == 0,
        r00 * r20 + r01 * r21 + r02 * r22 == 0,
        r10 * r20 + r11 * r21 + r12 * r22 == 0,
    ensures
        gmat_mul(
            gview_from_rows(r00, r01, r02, r10, r11, r12, r20, r21, r22, ex, ey, ez, de, rd),
            gview_inverse_from_rows(r00, r01, r02, r10, r11, r12, r20, r21, r22, ex, ey, ez, de, rd),
        ).is_scaled_identity(),
{
    let m = gmat_mul(
        gview_from_rows(r00, r01, r02, r10, r11, r12, r20, r21, r22, ex, ey, ez, de, rd),
        gview_inverse_from_rows(r00, r01, r02, r10, r11, r12, r20, r21, r22, ex, ey, ez, de, rd),
    );
    // Re-pair every product of the form (row * de) * (row * de).
    lemma_mul_pairings(r00, de, r00, de);
    lemma_mul_pairings(r01, de, r01, de);
    lemma_mul_pairings(r02, de, r02, de);
    lemma_mul_pairings(r10, de, r10, de);
    lemma_mul_pairings(r11, de, r11, de);
    lemma_mul_pairings(r12, de, r12, de);
    lemma_mul_pairings(r20, de, r20, de);
    lemma_mul_pairings(r21, de, r21, de);
    lemma_mul_pairings(r22, de, r22, de);
    lemma_mul_pairings(rd, de, rd, de);
    // Diagonal rotation entries: rows have squared length rd * rd.
    lemma_scale_eq3(r00 * r00, r01 * r01, r02 * r02, rd * rd, de * de);
    lemma_scale_eq3(r10 * r10, r11 * r11, r12 * r12, rd * rd, de * de);
    lemma_scale_eq3(r20 * r20, r21 * r21, r22 * r22, rd * rd, de * de);
    assert(m.e00 == m.den);
    assert(m.e11 == m.den);
    assert(m.e22 == m.den);
    // Off-diagonal rotation entries: distinct rows are orthogonal.
    lemma_mul_pairings(r00, de, r10, de);
    lemma_mul_pairings(r01, de, r11, de);
    lemma_mul_pairings(r02, de, r12, de);
    lemma_mul_pairings(r10, de, r00, de);
    lemma_mul_pairings(r11, de, r01, de);
    lemma_mul_pairings(r12, de, r02, de);
    lemma_mul_comm(r10, r00);
    lemma_mul_comm(r11, r01);
    lemma_mul_comm(r12, r02);
    lemma_scale_eq3(r00 * r10, r01 * r11, r02 * r12, 0, de * de);
    assert(m.e01 == 0);
    assert(m.e10 == 0);
    lemma_mul_pairings(r00, de, r20, de);
    lemma_mul_pairings(r01, de, r21, de);
    lemma_mul_pairings(r02, de, r22, de);
    lemma_mul_pairings(r20, de, r00, de);
    lemma_mul_pairings(r21, de, r01, de);
    lemma_mul_pairings(r22, de, r02, de);
    lemma_mul_comm(r20, r00);
    lemma_mul_comm(r21, r01);
    lemma_mul_comm(r22, r02);
    lemma_scale_eq3(r00 * r20, r01 * r21, r02 * r22, 0, de * de);
    assert(m.e02 == 0);
    assert(m.e20 == 0);
    lemma_mul_pairings(r10, de, r20, de);
    lemma_mul_pairings(r11, de, r21, de);
    lemma_mul_pairings(r12, de, r22, de);
    lemma_mul_pairings(r20, de, r10, de);
    lemma_mul_pairings(r21, de, r11, de);
    lemma_mul_pairings(r22, de, r12, de);
    lemma_mul_comm(r20, r10);
    lemma_mul_comm(r21, r11);
    lemma_mul_comm(r22, r12);
    lemma_scale_eq3(r10 * r20, r11 * r21, r12 * r22, 0, de * de);
    assert(m.e12 == 0);
    assert(m.e21 == 0);
    // Translation column: the restored eye cancels the view translation.
    lemma_mul_comm(rd, de);
    lemma_mul_pairings(r00, de, ex, rd);
    lemma_mul_pairings(r01, de, ey, rd);
    lemma_mul_pairings(r02, de, ez, rd);
    lemma_neg_mul(r00 * ex + r01 * ey + r02 * ez, rd * de);
    lemma_distribute3(r00 * ex, r01 * ey, r02 * ez, rd * de);
    lemma_mul_comm_inside(r00 * ex, rd, de);
    lemma_mul_comm_inside(r01 * ey, rd, de);
    lemma_mul_comm_inside(r02 * ez, rd, de);
    assert(m.e03 == 0);
    lemma_mul_pairings(r10, de, ex, rd);
    lemma_mul_pairings(r11, de, ey, rd);
    lemma_mul_pairings(r12, de, ez, rd);
    lemma_neg_mul(r10 * ex + r11 * ey + r12 * ez, rd * de);
    lemma_distribute3(r10 * ex, r11 * ey, r12 * ez, rd * de);
    lemma_mul_comm_inside(r10 * ex, rd, de);
    lemma_mul_comm_inside(r11 * ey, rd, de);
    lemma_mul_comm_inside(r12 * ez, rd, de);
    assert(m.e13 == 0);
    lemma_mul_pairings(r20, de, ex, rd);
    lemma_mul_pairings(r21, de, ey, rd);
    lemma_mul_pairings(r22, de, ez, rd);
    lemma_neg_mul(r20 * ex + r21 * ey + r22 * ez, rd * de);
    lemma_distribute3(r20 * ex, r21 * ey, r22 * ez, rd * de);
    lemma_mul_comm_inside(r20 * ex, rd, de);
    lemma_mul_comm_inside(r21 * ey, rd, de);
    lemma_mul_comm_inside(r22 * ez, rd, de);
    assert(m.e23 == 0);
}

/// `p * (a * b) == p * (b * a)`: commuting inside the right factor.
proof fn lemma_mul_comm_inside(p: int, a: int, b: int)
    by (nonlinear_arith)
    ensures
        p * (a * b) == p * (b * a),
{
}

/// Squared length of the side row equals the shared squared denominator.
proof fn lemma_gram_row0(cy: int, sy: int, dy: int, dp: int)
    requires
        cy * cy + sy * sy == dy * dy,
    ensures
        (-(sy * dp)) * (-(sy * dp)) + (cy * dp) * (cy * dp) == (dy * dp) * (dy * dp),
{
    lemma_neg_mul(sy * dp, sy * dp);
    lemma_mul_pairings(sy, dp, sy, dp);
    lemma_mul_pairings(cy, dp, cy, dp);
    lemma_mul_pairings(dy, dp, dy, dp);
    lemma_scale_eq2(sy * sy, cy * cy, dy * dy, dp * dp);
}

/// Squared length of the up row equals the shared squared denominator.
proof fn lemma_gram_row1(cy: int, sy: int, dy: int, cp: int, sp: int, dp: int)
    requires
        cy * cy + sy * sy == dy * dy,
        cp * cp + sp * sp == dp * dp,
    ensures
        (-(cy * sp)) * (-(cy * sp)) + (cp * dy) * (cp * dy) + (-(sy * sp)) * (-(sy * sp)) == (dy * dp) * (dy * dp),
{
    lemma_neg_mul(cy * sp, cy * sp);
    lemma_neg_mul(sy * sp, sy * sp);
    lemma_mul_pairings(cy, sp, cy, sp);
    lemma_mul_pairings(cp, dy, cp, dy);
    lemma_mul_pairings(sy, sp, sy, sp);
    lemma_mul_pairings(dy, dp, dy, dp);
    lemma_scale_eq2(cy * cy, sy * sy, dy * dy, sp * sp);
    lemma_scale_eq2(sp * sp, cp * cp, dp * dp, dy * dy);
    lemma_mul_comm(dy * dy, sp * sp);
    lemma_mul_comm(cp * cp, dy * dy);
    lemma_mul_comm(dp * dp, dy * dy);
}

/// Squared length of the look row equals the shared squared denominator.
proof fn lemma_gram_row2(cy: int, sy: int, dy: int, cp: int, sp: int, dp: int)
    requires
        cy * cy + sy * sy == dy * dy,
        cp * cp + sp * sp == dp * dp,
    ensures
        (-(cp * cy)) * (-(cp * cy)) + (-(sp * dy)) * (-(sp * dy)) + (-(cp * sy)) * (-(cp * sy)) == (dy * dp) * (dy * dp),
{
    lemma_neg_mul(cp * cy, cp * cy);
    lemma_neg_mul(sp * dy, sp * dy);
    lemma_neg_mul(cp * sy, cp * sy);
    lemma_mul_pairings(cp, cy, cp, cy);
    lemma_mul_pairings(sp, dy, sp, dy);
    lemma_mul_pairings(cp, sy, cp, sy);
    lemma_mul_pairings(dy, dp, dy, dp);
    lemma_scale_eq2(cy * cy, sy * sy, dy * dy, cp * cp);
    lemma_scale_eq2(cp * cp, sp * sp, dp * dp, dy * dy);
    lemma_mul_comm(cy * cy, cp * cp);
    lemma_mul_comm(sy * sy, cp * cp);
    lemma_mul_comm(dy * dy, cp * cp);
    lemma_mul_comm(sp * sp, dy * dy);
    lemma_mul_comm(dp * dp, dy * dy);
}

/// The side row is orthogonal to the up row.
proof fn lemma_gram_row01(cy: int, sy: int, cp: int, sp: int, dy: int, dp: int)
    ensures
        (-(sy * dp)) * (-(cy * sp)) + (cy * dp) * (-(sy * sp)) == 0,
{
    lemma_neg_mul(sy * dp, cy * sp);
    lemma_neg_mul_right(cy * dp, sy * sp);
    lemma_mul_pairings(sy, dp, cy, sp);
    lemma_mul_pairings(cy, dp, sy, sp);
    lemma_mul_comm(cy, sy);
    lemma_mul_comm_inside(cy * sy, dp, sp);
}

/// The side row is orthogonal to the look row.
proof fn lemma_gram_row02(cy: int, sy: int, cp: int, sp: int, dy: int, dp: int)
    ensures
        (-(sy * dp)) * (-(cp * cy)) + (cy * dp) * (-(cp * sy)) == 0,
{
    lemma_neg_mul(sy * dp, cp * cy);
    lemma_neg_mul_right(cy * dp, cp * sy);
    lemma_mul_pairings(sy, dp, cp, cy);
    lemma_mul_pairings(cy, dp, cp, sy);
    lemma_mul_comm(cy, sy);
    lemma_mul_comm_inside(cy * sy, dp, cp);
}

/// The up row is orthogonal to the look row.
proof fn lemma_gram_row12(cy: int, sy: int, dy: int, cp: int, sp: int, dp: int)
    requires
        cy * cy + sy * sy == dy * dy,
    ensures
        (-(cy * sp)) * (-(cp * cy)) + (cp * dy) * (-(sp * dy)) + (-(sy * sp)) * (-(cp * sy)) == 0,
{
    lemma_neg_mul(cy * sp, cp * cy);
    lemma_neg_mul_right(cp * dy, sp * dy);
    lemma_neg_mul(sy * sp, cp * sy);
    lemma_mul_pairings(cy, sp, cp, cy);
    lemma_mul_pairings(cp, dy, sp, dy);
    lemma_mul_pairings(sy, sp, cp, sy);
    lemma_scale_eq2(cy * cy, sy * sy, dy * dy, sp * cp);
    lemma_mul_comm(cp, sp);
    lemma_mul_comm(cp * sp, dy * dy);
    lemma_mul_comm(dy * dy, sp * cp);
}

/// Signs move through the right factor of a product.
proof fn lemma_neg_mul_right(a: int, b: int)
    by (nonlinear_arith)
    ensures
        a * (-b) == -(a * b),
{
}

/// The view matrix of any valid pose composed with its inverse is the
/// identity (scaled by the shared denominator), exactly.
pub proof fn lemma_view_times_inverse_is_identity(
    cy: int, sy: int, dy: int,
    cp: int, sp: int, dp: int,
    ex: int, ey: int, ez: int, de: int,
)
    requires
        cy * cy + sy * sy == dy * dy,
        cp * cp + sp * sp == dp * dp,
    ensures
        gmat_mul(
            gview(cy, sy, dy, cp, sp, dp, ex, ey, ez, de),
            gview_inverse(cy, sy, dy, cp, sp, dp, ex, ey, ez, de),
        ).is_scaled_identity(),
{
    lemma_gram_row0(cy, sy, dy, dp);
    lemma_gram_row1(cy, sy, dy, cp, sp, dp);
    lemma_gram_row2(cy, sy, dy, cp, sp, dp);
    lemma_gram_row01(cy, sy, cp, sp, dy, dp);
    lemma_gram_row02(cy, sy, cp, sp, dy, dp);
    lemma_gram_row12(cy, sy, dy, cp, sp, dp);
    lemma_rigid_view_product(
        -(sy * dp), 0, cy * dp,
        -(cy * sp), cp * dy, -(sy * sp),
        -(cp * cy), -(sp * dy), -(cp * sy),
        ex, ey, ez, de, dy * dp,
    );
}

/// `lemma_view_times_inverse_is_identity` specialized to a camera value:
/// composing `calc_view_matrix` with `calc_view_matrix_inverse` yields
/// the identity, exactly.
pub proof fn lemma_camera_view_roundtrip(c: Camera)
    requires
        c.wf(),
    ensures
        gmat_mul(
            gview(
                c.yaw.cos as int, c.yaw.sin as int, c.yaw.den as int,
                c.pitch.cos as int, c.pitch.sin as int, c.pitch.den as int,
                c.position.x as int, c.position.y as int, c.position.z as int,
                c.position.den as int,
            ),
            gview_inverse(
                c.yaw.cos as int, c.yaw.sin as int, c.yaw.den as int,
                c.pitch.cos as int, c.pitch.sin as int, c.pitch.den as int,
                c.position.x as int, c.position.y as int, c.position.z as int,
                c.position.den as int,
            ),
        ).is_scaled_identity(),
{
    lemma_view_times_inverse_is_identity(
        c.yaw.cos as int, c.yaw.sin as int, c.yaw.den as int,
        c.pitch.cos as int, c.pitch.sin as int, c.pitch.den as int,
        c.position.x as int, c.position.y as int, c.position.z as int,
        c.position.den as int,
    );
}

} // verus!

verus! {

/// Viewport and clip configuration of the perspective projection.
///
/// `focal` is the cotangent of half the vertical field of view.
#[derive(Clone, Copy, Debug)]
pub struct Projection {
    pub width: u32,
    pub height: u32,
    pub focal: Rat,
    pub near: Rat,
    pub far: Rat,
}

impl Projection {
    /// Valid configuration: a non-degenerate viewport within the model
    /// bound, a positive focal scale, and `0 < near < far`.
    pub open spec fn wf(self) -> bool {
        &&& 1 <= self.width <= MAX_VIEWPORT_DIM
        &&& 1 <= self.height <= MAX_VIEWPORT_DIM
        &&& self.focal.wf() && self.focal.num > 0
        &&& self.focal.bounded(PROJECTION_PARAM_BOUND as int)
        &&& self.near.wf() && self.near.num > 0
        &&& self.near.bounded(PROJECTION_PARAM_BOUND as int)
        &&& self.far.wf() && self.far.bounded(PROJECTION_PARAM_BOUND as int)
        &&& self.near.spec_lt(self.far)
    }

    /// Accepts exactly the valid configurations.
    pub fn new(width: u32, height: u32, focal: Rat, near: Rat, far: Rat) -> (r: Option<
        Projection,
    >)
        ensures
            r is Some <==> (Projection { width, height, focal, near, far }).wf(),
            r is Some ==> r.unwrap() == (Projection { width, height, focal, near, far }),
    {
        let p = Projection { width, height, focal, near, far };
        let dims_ok = 1 <= width && width <= MAX_VIEWPORT_DIM && 1 <= height
            && height <= MAX_VIEWPORT_DIM;
        let focal_ok = focal.den > 0 && focal.num > 0 && focal.num <= PROJECTION_PARAM_BOUND
            && focal.den <= PROJECTION_PARAM_BOUND;
        let near_ok = near.den > 0 && near.num > 0 && near.num <= PROJECTION_PARAM_BOUND
            && near.den <= PROJECTION_PARAM_BOUND;
        let far_ok = far.den > 0 && -PROJECTION_PARAM_BOUND <= far.num
            && far.num <= PROJECTION_PARAM_BOUND && far.den <= PROJECTION_PARAM_BOUND;
        if dims_ok && focal_ok && near_ok && far_ok && crate::rational::rat_lt(near, far) {
            Some(p)
        } else {
            None
        }
    }

    /// Updates the viewport; a zero-sized (or over-bound) viewport is a
    /// no-op and the projection is left exactly as it was.
    pub fn resize(&mut self, width: u32, height: u32)
        requires
            old(self).wf(),
        ensures
            final(self).wf(),
            (1 <= width <= MAX_VIEWPORT_DIM && 1 <= height <= MAX_VIEWPORT_DIM) ==> *final(self)
                == (Projection { width, height, ..*old(self) }),
            width == 0 || height == 0 ==> *final(self) == *old(self),
            !(1 <= width <= MAX_VIEWPORT_DIM && 1 <= height <= MAX_VIEWPORT_DIM) ==> *final(self)
                == *old(self),
            final(self).focal == old(self).focal,
            final(self).near == old(self).near,
            final(self).far == old(self).far,
    {
        if 1 <= width && width <= MAX_VIEWPORT_DIM && 1 <= height && height <= MAX_VIEWPORT_DIM {
            self.width = width;
            self.height = height;
        }
    }

    /// The right-handed perspective projection matrix: depth maps the
    /// near plane to -1 and the far plane to +1 in clip space.
    pub fn calc_projection_matrix(&self) -> (r: Mat4)
        requires
            self.wf(),
        ensures
            r.view() == gperspective(
                self.focal.num as int, self.focal.den as int,
                self.near.num as int, self.near.den as int,
                self.far.num as int, self.far.den as int,
                self.width as int, self.height as int,
            ),
            r.wf(),
    {
        proof {
            crate::matrix::lemma_mul_magnitude_bound(
                self.focal.den as int, self.width as int, 1024, 32768);
            crate::matrix::lemma_mul_magnitude_bound(
                self.far.num as int, self.near.den as int, 1024, 1024);
            crate::matrix::lemma_mul_magnitude_bound(
                self.near.num as int, self.far.den as int, 1024, 1024);
            crate::matrix::lemma_mul_magnitude_bound(
                self.focal.num as int, self.height as int, 1024, 32768);
            crate::matrix::lemma_mul_magnitude_bound(
                self.focal.num as int, self.width as int, 1024, 32768);
            crate::rational::lemma_pos_mul_pos(self.focal.den as int, self.width as int);
        }
        let fw: i128 = (self.focal.den as i128) * (self.width as i128);
        let q: i128 = (self.far.num as i128) * (self.near.den as i128) - (self.near.num as i128)
            * (self.far.den as i128);
        let sum: i128 = (self.far.num as i128) * (self.near.den as i128) + (self.near.num as i128)
            * (self.far.den as i128);
        proof {
            crate::matrix::lemma_mul_magnitude_bound(
                (self.focal.num as int) * (self.height as int), q as int, 33554432, 2097152);
            crate::matrix::lemma_mul_magnitude_bound(
                (self.focal.num as int) * (self.width as int), q as int, 33554432, 2097152);
            crate::matrix::lemma_mul_magnitude_bound(sum as int, fw as int, 2097152, 33554432);
            crate::matrix::lemma_mul_magnitude_bound(
                2 * (self.far.num as int), self.near.num as int, 2048, 1024);
            crate::matrix::lemma_mul_magnitude_bound(
                (2 * (self.far.num as int)) * (self.near.num as int), fw as int, 2097152, 33554432);
            crate::matrix::lemma_mul_magnitude_bound(fw as int, q as int, 33554432, 2097152);
            crate::rational::lemma_pos_mul_pos(fw as int, q as int);
        }
        Mat4 {
            e00: ((self.focal.num as i128) * (self.height as i128)) * q,
            e01: 0,
            e02: 0,
            e03: 0,
            e10: 0,
            e11: ((self.focal.num as i128) * (self.width as i128)) * q,
            e12: 0,
            e13: 0,
            e20: 0,
            e21: 0,
            e22: -(sum * fw),
            e23: -(((2 * (self.far.num as i128)) * (self.near.num as i128)) * fw),
            e30: 0,
            e31: 0,
            e32: -(fw * q),
            e33: 0,
            den: fw * q,
        }
    }
}

/// The ghost perspective matrix for focal `fn_ / fd`, near `nn / nd`,
/// far `ff / fd2` and viewport `w` by `h`; the shared denominator is
/// `(fd * w) * (ff * nd - nn * fd2)`.
pub open spec fn gperspective(
    fn_: int, fd: int, nn: int, nd: int, ff: int, fd2: int, w: int, h: int,
) -> GMat {
    GMat {
        e00: (fn_ * h) * (ff * nd - nn * fd2),
        e01: 0,
        e02: 0,
        e03: 0,
        e10: 0,
        e11: (fn_ * w) * (ff * nd - nn * fd2),
        e12: 0,
        e13: 0,
        e20: 0,
        e21: 0,
        e22: -((ff * nd + nn * fd2) * (fd * w)),
        e23: -(((2 * ff) * nn) * (fd * w)),
        e30: 0,
        e31: 0,
        e32: -((fd * w) * (ff * nd - nn * fd2)),
        e33: 0,
        den: (fd * w) * (ff * nd - nn * fd2),
    }
}

/// The perspective projection maps the near plane to clip depth -1 and
/// the far plane to clip depth +1.
///
/// A view-space point on the near plane (`z == -near`) projects to
/// `z/w == -1`, one on the far plane to `z/w == +1`, with a positive
/// homogeneous coordinate in both cases.
pub proof fn lemma_perspective_depth_range(
    fn_: int, fd: int, nn: int, nd: int, ff: int, fd2: int, w: int, h: int,
)
    requires
        fn_ >= 1,
        fd >= 1,
        nn >= 1,
        nd >= 1,
        fd2 >= 1,
        w >= 1,
        h >= 1,
        nn * fd2 < ff * nd,
    ensures
        gmat_apply(gperspective(fn_, fd, nn, nd, ff, fd2, w, h), 0, 0, -nn, nd).w > 0,
        gmat_apply(gperspective(fn_, fd, nn, nd, ff, fd2, w, h), 0, 0, -nn, nd).z
            == -gmat_apply(gperspective(fn_, fd, nn, nd, ff, fd2, w, h), 0, 0, -nn, nd).w,
        gmat_apply(gperspective(fn_, fd, nn, nd, ff, fd2, w, h), 0, 0, -ff, fd2).w > 0,
        gmat_apply(gperspective(fn_, fd, nn, nd, ff, fd2, w, h), 0, 0, -ff, fd2).z
            == gmat_apply(gperspective(fn_, fd, nn, nd, ff, fd2, w, h), 0, 0, -ff, fd2).w,
{
    // Shared sign moves and re-associations.
    lemma_neg_mul((ff * nd + nn * fd2) * (fd * w), nn);
    lemma_neg_mul((ff * nd + nn * fd2) * (fd * w), ff);
    lemma_neg_mul(((2 * ff) * nn) * (fd * w), nd);
    lemma_neg_mul(((2 * ff) * nn) * (fd * w), fd2);
    lemma_neg_mul((fd * w) * (ff * nd - nn * fd2), nn);
    lemma_neg_mul((fd * w) * (ff * nd - nn * fd2), ff);
    // Near plane, z row: e22 * (-nn) + e23 * nd.
    crate::matrix::lemma_mul_assoc(ff * nd + nn * fd2, fd * w, nn);
    crate::matrix::lemma_distribute2(ff * nd, nn * fd2, (fd * w) * nn);
    crate::matrix::lemma_mul_assoc((2 * ff) * nn, fd * w, nd);
    crate::matrix::lemma_mul_assoc(2, ff, nn);
    crate::matrix::lemma_mul_assoc(2, ff * nn, (fd * w) * nd);
    // Near plane, w row: e32 * (-nn).
    crate::matrix::lemma_mul_assoc(fd * w, ff * nd - nn * fd2, nn);
    crate::matrix::lemma_mul_comm(fd * w, (ff * nd - nn * fd2) * nn);
    crate::matrix::lemma_mul_distribute_then_comm(ff * nd, nn * fd2, nn, fd * w);
    // Align the two shapes of each monomial.
    crate::matrix::lemma_mul_four_shapes(ff, nd, fd * w, nn);
    assert(gmat_apply(gperspective(fn_, fd, nn, nd, ff, fd2, w, h), 0, 0, -nn, nd).z
        == -gmat_apply(gperspective(fn_, fd, nn, nd, ff, fd2, w, h), 0, 0, -nn, nd).w);
    // Far plane, z row: e22 * (-ff) + e23 * fd2.
    crate::matrix::lemma_mul_assoc(ff * nd + nn * fd2, fd * w, ff);
    crate::matrix::lemma_distribute2(ff * nd, nn * fd2, (fd * w) * ff);
    crate::matrix::lemma_mul_assoc((2 * ff) * nn, fd * w, fd2);
    crate::matrix::lemma_mul_assoc(2, ff * nn, (fd * w) * fd2);
    // Far plane, w row: e32 * (-ff).
    crate::matrix::lemma_mul_assoc(fd * w, ff * nd - nn * fd2, ff);
    crate::matrix::lemma_mul_comm(fd * w, (ff * nd - nn * fd2) * ff);
    crate::matrix::lemma_mul_distribute_then_comm(ff * nd, nn * fd2, ff, fd * w);
    crate::matrix::lemma_mul_four_shapes(nn, fd2, fd * w, ff);
    crate::matrix::lemma_mul_comm(nn, ff);
    assert(gmat_apply(gperspective(fn_, fd, nn, nd, ff, fd2, w, h), 0, 0, -ff, fd2).z
        == gmat_apply(gperspective(fn_, fd, nn, nd, ff, fd2, w, h), 0, 0, -ff, fd2).w);
    // Positive homogeneous coordinates.
    crate::rational::lemma_pos_mul_pos(nn, fd2);
    assert(ff > 0) by {
        if ff <= 0 {
            crate::matrix::lemma_mul_signs(-ff, nd);
            crate::matrix::lemma_neg_mul(ff, nd);
        }
    }
    crate::rational::lemma_pos_mul_pos(fd, w);
    crate::rational::lemma_pos_mul_pos(fd * w, ff * nd - nn * fd2);
    crate::rational::lemma_pos_mul_pos((fd * w) * (ff * nd - nn * fd2), nn);
    crate::rational::lemma_pos_mul_pos((fd * w) * (ff * nd - nn * fd2), ff);
}

} // verus!
