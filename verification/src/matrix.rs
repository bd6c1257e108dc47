//! Homogeneous 4x4 matrices over exact rationals.
//!
//! A matrix is held as sixteen integer numerators over one shared positive
//! denominator; `eRC` is the entry in row `R`, column `C` of the row-major
//! matrix, so the matrix acts on column vectors from the left.  The ghost
//! type `GMat` carries the unbounded mathematical value; the executable
//! type `Mat4` carries the same data in `i128` components, bounded so that
//! one matrix product can be computed without overflow.

use vstd::prelude::*;

verus! {

/// Magnitude bound on the components of an executable matrix: products of
/// two bounded components, summed four at a time, stay inside `i128`.
pub const COMPONENT_BOUND: i128 = 0x4000_0000_0000_0000;

/// The mathematical value of a matrix: sixteen rational entries over one
/// shared positive denominator.
pub ghost struct GMat {
    pub e00: int, pub e01: int, pub e02: int, pub e03: int,
    pub e10: int, pub e11: int, pub e12: int, pub e13: int,
    pub e20: int, pub e21: int, pub e22: int, pub e23: int,
    pub e30: int, pub e31: int, pub e32: int, pub e33: int,
    pub den: int,
}

/// The mathematical value of a homogeneous point or vector.
pub ghost struct GVec4 {
    pub x: int,
    pub y: int,
    pub z: int,
    pub w: int,
}

impl GMat {
    /// The shared denominator must be positive.
    pub open spec fn wf(self) -> bool {
        self.den > 0
    }

    /// Every numerator is at most `b` in magnitude and the denominator is
    /// positive and at most `b`.
    pub open spec fn bounded(self, b: int) -> bool {
        &&& -b <= self.e00 <= b && -b <= self.e01 <= b && -b <= self.e02 <= b && -b <= self.e03 <= b
        &&& -b <= self.e10 <= b && -b <= self.e11 <= b && -b <= self.e12 <= b && -b <= self.e13 <= b
        &&& -b <= self.e20 <= b && -b <= self.e21 <= b && -b <= self.e22 <= b && -b <= self.e23 <= b
        &&& -b <= self.e30 <= b && -b <= self.e31 <= b && -b <= self.e32 <= b && -b <= self.e33 <= b
        &&& 0 < self.den <= b
    }

    /// The matrix is the identity scaled by its own denominator, that is,
    /// the identity as a rational matrix.
    pub open spec fn is_scaled_identity(self) -> bool {
        &&& self.e00 == self.den && self.e01 == 0 && self.e02 == 0 && self.e03 == 0
        &&& self.e10 == 0 && self.e11 == self.den && self.e12 == 0 && self.e13 == 0
        &&& self.e20 == 0 && self.e21 == 0 && self.e22 == self.den && self.e23 == 0
        &&& self.e30 == 0 && self.e31 == 0 && self.e32 == 0 && self.e33 == self.den
    }
}

/// The matrix product `a * b` as rationals: numerators are the row-column
/// sums, the shared denominator is the product of the denominators.
pub open spec fn gmat_mul(a: GMat, b: GMat) -> GMat {
    GMat {
        e00: a.e00 * b.e00 + a.e01 * b.e10 + a.e02 * b.e20 + a.e03 * b.e30,
        e01: a.e00 * b.e01 + a.e01 * b.e11 + a.e02 * b.e21 + a.e03 * b.e31,
        e02: a.e00 * b.e02 + a.e01 * b.e12 + a.e02 * b.e22 + a.e03 * b.e32,
        e03: a.e00 * b.e03 + a.e01 * b.e13 + a.e02 * b.e23 + a.e03 * b.e33,
        e10: a.e10 * b.e00 + a.e11 * b.e10 + a.e12 * b.e20 + a.e13 * b.e30,
        e11: a.e10 * b.e01 + a.e11 * b.e11 + a.e12 * b.e21 + a.e13 * b.e31,
        e12: a.e10 * b.e02 + a.e11 * b.e12 + a.e12 * b.e22 + a.e13 * b.e32,
        e13: a.e10 * b.e03 + a.e11 * b.e13 + a.e12 * b.e23 + a.e13 * b.e33,
        e20: a.e20 * b.e00 + a.e21 * b.e10 + a.e22 * b.e20 + a.e23 * b.e30,
        e21: a.e20 * b.e01 + a.e21 * b.e11 + a.e22 * b.e21 + a.e23 * b.e31,
        e22: a.e20 * b.e02 + a.e21 * b.e12 + a.e22 * b.e22 + a.e23 * b.e32,
        e23: a.e20 * b.e03 + a.e21 * b.e13 + a.e22 * b.e23 + a.e23 * b.e33,
        e30: a.e30 * b.e00 + a.e31 * b.e10 + a.e32 * b.e20 + a.e33 * b.e30,
        e31: a.e30 * b.e01 + a.e31 * b.e11 + a.e32 * b.e21 + a.e33 * b.e31,
        e32: a.e30 * b.e02 + a.e31 * b.e12 + a.e32 * b.e22 + a.e33 * b.e32,
        e33: a.e30 * b.e03 + a.e31 * b.e13 + a.e32 * b.e23 + a.e33 * b.e33,
        den: a.den * b.den,
    }
}

/// The matrix applied to the homogeneous point `(px, py, pz, pd)`, where
/// `pd` is both the homogeneous coordinate and the point's denominator.
pub open spec fn gmat_apply(m: GMat, px: int, py: int, pz: int, pd: int) -> GVec4 {
    GVec4 {
        x: m.e00 * px + m.e01 * py + m.e02 * pz + m.e03 * pd,
        y: m.e10 * px + m.e11 * py + m.e12 * pz + m.e13 * pd,
        z: m.e20 * px + m.e21 * py + m.e22 * pz + m.e23 * pd,
        w: m.e30 * px + m.e31 * py + m.e32 * pz + m.e33 * pd,
    }
}

/// An executable matrix; components mirror the ghost value exactly.
#[derive(Clone, Copy, Debug)]
pub struct Mat4 {
    pub e00: i128, pub e01: i128, pub e02: i128, pub e03: i128,
    pub e10: i128, pub e11: i128, pub e12: i128, pub e13: i128,
    pub e20: i128, pub e21: i128, pub e22: i128, pub e23: i128,
    pub e30: i128, pub e31: i128, pub e32: i128, pub e33: i128,
    pub den: i128,
}

impl Mat4 {
    /// The mathematical value this matrix holds.
    pub open spec fn view(self) -> GMat {
        GMat {
            e00: self.e00 as int, e01: self.e01 as int, e02: self.e02 as int, e03: self.e03 as int,
            e10: self.e10 as int, e11: self.e11 as int, e12: self.e12 as int, e13: self.e13 as int,
            e20: self.e20 as int, e21: self.e21 as int, e22: self.e22 as int, e23: self.e23 as int,
            e30: self.e30 as int, e31: self.e31 as int, e32: self.e32 as int, e33: self.e33 as int,
            den: self.den as int,
        }
    }

    /// Usable: positive denominator, all components within the bound that
    /// keeps one matrix product inside `i128`.
    pub open spec fn wf(self) -> bool {
        self.view().bounded(COMPONENT_BOUND as int)
    }
}

/// `|x * y| <= bx * by` for magnitudes bounded by `bx` and `by`.
pub proof fn lemma_mul_magnitude_bound(x: int, y: int, bx: int, by: int)
    by (nonlinear_arith)
    requires
        -bx <= x <= bx,
        -by <= y <= by,
        0 <= bx,
        0 <= by,
    ensures
        -(bx * by) <= x * y <= bx * by,
{
}

/// Commutativity of multiplication, for aligning product atoms.
pub proof fn lemma_mul_comm(a: int, b: int)
    by (nonlinear_arith)
    ensures
        a * b == b * a,
{
}

/// Associativity of multiplication, for aligning product atoms.
pub proof fn lemma_mul_assoc(a: int, b: int, c: int)
    by (nonlinear_arith)
    ensures
        (a * b) * c == a * (b * c),
{
}

/// Signs move freely through a product.
pub proof fn lemma_neg_mul(a: int, b: int)
    by (nonlinear_arith)
    ensures
        (-a) * b == -(a * b),
        a * (-b) == -(a * b),
        (-a) * (-b) == a * b,
{
}

/// A product of two pair-products may be re-paired either way.
pub proof fn lemma_mul_pairings(a: int, b: int, c: int, d: int)
    by (nonlinear_arith)
    ensures
        (a * b) * (c * d) == (a * c) * (b * d),
        (a * b) * (c * d) == (a * d) * (b * c),
{
}

/// A factor distributes over a three-term sum.
pub proof fn lemma_distribute3(p: int, q: int, r: int, k: int)
    by (nonlinear_arith)
    ensures
        (p + q + r) * k == p * k + q * k + r * k,
{
}

/// A factor distributes over a two-term sum, from the left.
pub proof fn lemma_left_distribute2(k: int, p: int, q: int)
    by (nonlinear_arith)
    ensures
        k * (p + q) == k * p + k * q,
        k * (p - q) == k * p - k * q,
{
}

/// A factor distributes over a two-term sum, from the right.
pub proof fn lemma_distribute2(p: int, q: int, k: int)
    by (nonlinear_arith)
    ensures
        (p + q) * k == p * k + q * k,
        (p - q) * k == p * k - q * k,
{
}

/// A factor distributes over a three-term sum, from the left.
pub proof fn lemma_left_distribute3(k: int, p: int, q: int, r: int)
    by (nonlinear_arith)
    ensures
        k * (p + q + r) == k * p + k * q + k * r,
{
}

/// A product of non-negative factors is non-negative; a non-negative
/// factor times a non-positive one is non-positive.
pub proof fn lemma_mul_signs(a: int, b: int)
    by (nonlinear_arith)
    ensures
        a >= 0 && b >= 0 ==> a * b >= 0,
        a >= 0 && b <= 0 ==> a * b <= 0,
{
}

/// A square is non-negative, and positive off zero.
pub proof fn lemma_square_sign(x: int)
    by (nonlinear_arith)
    ensures
        x * x >= 0,
        x != 0 ==> x * x > 0,
{
}

/// A factor distributes over a scaled two-term difference.
pub proof fn lemma_mul_distribute_then_comm(p: int, q: int, c: int, k: int)
    by (nonlinear_arith)
    ensures
        k * ((p - q) * c) == p * (k * c) - q * (k * c),
{
}

/// The inner factors of a product of pair-products may be swapped.
pub proof fn lemma_mul_four_shapes(a: int, b: int, k: int, c: int)
    by (nonlinear_arith)
    ensures
        (a * b) * (k * c) == (a * c) * (k * b),
{
}

/// An equation between two-term sums may be scaled by a common factor.
pub proof fn lemma_scale_eq2(p: int, q: int, s: int, k: int)
    by (nonlinear_arith)
    requires
        p + q == s,
    ensures
        p * k + q * k == s * k,
{
}

/// An equation between three-term sums may be scaled by a common factor.
pub proof fn lemma_scale_eq3(p: int, q: int, r: int, s: int, k: int)
    by (nonlinear_arith)
    requires
        p + q + r == s,
    ensures
        p * k + q * k + r * k == s * k,
{
}

/// Row-column inner product of bounded `i128` components, without overflow.
fn dot4(a0: i128, a1: i128, a2: i128, a3: i128, b0: i128, b1: i128, b2: i128, b3: i128) -> (r: i128)
    requires
        -COMPONENT_BOUND <= a0 <= COMPONENT_BOUND,
        -COMPONENT_BOUND <= a1 <= COMPONENT_BOUND,
        -COMPONENT_BOUND <= a2 <= COMPONENT_BOUND,
        -COMPONENT_BOUND <= a3 <= COMPONENT_BOUND,
        -COMPONENT_BOUND <= b0 <= COMPONENT_BOUND,
        -COMPONENT_BOUND <= b1 <= COMPONENT_BOUND,
        -COMPONENT_BOUND <= b2 <= COMPONENT_BOUND,
        -COMPONENT_BOUND <= b3 <= COMPONENT_BOUND,
    ensures
        r == a0 * b0 + a1 * b1 + a2 * b2 + a3 * b3,
{
    proof {
        lemma_mul_magnitude_bound(a0 as int, b0 as int, COMPONENT_BOUND as int, COMPONENT_BOUND as int);
        lemma_mul_magnitude_bound(a1 as int, b1 as int, COMPONENT_BOUND as int, COMPONENT_BOUND as int);
        lemma_mul_magnitude_bound(a2 as int, b2 as int, COMPONENT_BOUND as int, COMPONENT_BOUND as int);
        lemma_mul_magnitude_bound(a3 as int, b3 as int, COMPONENT_BOUND as int, COMPONENT_BOUND as int);
    }
    a0 * b0 + a1 * b1 + a2 * b2 + a3 * b3
}

/// The exact matrix product; both factors must be `wf`, and the result
/// carries exactly the rational product.
pub fn mat_mul(a: &Mat4, b: &Mat4) -> (r: Mat4)
    requires
        a.wf(),
        b.wf(),
    ensures
        r.view() == gmat_mul(a.view(), b.view()),
        r.view().wf(),
{
    proof {
        lemma_mul_magnitude_bound(a.den as int, b.den as int, COMPONENT_BOUND as int, COMPONENT_BOUND as int);
        crate::rational::lemma_pos_mul_pos(a.den as int, b.den as int);
    }
    Mat4 {
        e00: dot4(a.e00, a.e01, a.e02, a.e03, b.e00, b.e10, b.e20, b.e30),
        e01: dot4(a.e00, a.e01, a.e02, a.e03, b.e01, b.e11, b.e21, b.e31),
        e02: dot4(a.e00, a.e01, a.e02, a.e03, b.e02, b.e12, b.e22, b.e32),
        e03: dot4(a.e00, a.e01, a.e02, a.e03, b.e03, b.e13, b.e23, b.e33),
        e10: dot4(a.e10, a.e11, a.e12, a.e13, b.e00, b.e10, b.e20, b.e30),
        e11: dot4(a.e10, a.e11, a.e12, a.e13, b.e01, b.e11, b.e21, b.e31),
        e12: dot4(a.e10, a.e11, a.e12, a.e13, b.e02, b.e12, b.e22, b.e32),
        e13: dot4(a.e10, a.e11, a.e12, a.e13, b.e03, b.e13, b.e23, b.e33),
        e20: dot4(a.e20, a.e21, a.e22, a.e23, b.e00, b.e10, b.e20, b.e30),
        e21: dot4(a.e20, a.e21, a.e22, a.e23, b.e01, b.e11, b.e21, b.e31),
        e22: dot4(a.e20, a.e21, a.e22, a.e23, b.e02, b.e12, b.e22, b.e32),
        e23: dot4(a.e20, a.e21, a.e22, a.e23, b.e03, b.e13, b.e23, b.e33),
        e30: dot4(a.e30, a.e31, a.e32, a.e33, b.e00, b.e10, b.e20, b.e30),
        e31: dot4(a.e30, a.e31, a.e32, a.e33, b.e01, b.e11, b.e21, b.e31),
        e32: dot4(a.e30, a.e31, a.e32, a.e33, b.e02, b.e12, b.e22, b.e32),
        e33: dot4(a.e30, a.e31, a.e32, a.e33, b.e03, b.e13, b.e23, b.e33),
        den: a.den * b.den,
    }
}

/// An executable homogeneous point with exact components.
#[derive(Clone, Copy, Debug)]
pub struct Vec4h {
    pub x: i128,
    pub y: i128,
    pub z: i128,
    pub w: i128,
}

impl Vec4h {
    /// The mathematical value this point holds.
    pub open spec fn view(self) -> GVec4 {
        GVec4 { x: self.x as int, y: self.y as int, z: self.z as int, w: self.w as int }
    }
}

/// The matrix applied to a homogeneous point given by `i64` components,
/// with `pd` its positive denominator (and homogeneous coordinate).
pub fn mat_apply_point(m: &Mat4, px: i64, py: i64, pz: i64, pd: i64) -> (r: Vec4h)
    requires
        m.wf(),
        -COMPONENT_BOUND <= px as int <= COMPONENT_BOUND,
        -COMPONENT_BOUND <= py as int <= COMPONENT_BOUND,
        -COMPONENT_BOUND <= pz as int <= COMPONENT_BOUND,
        0 < pd as int <= COMPONENT_BOUND,
    ensures
        r.view() == gmat_apply(m.view(), px as int, py as int, pz as int, pd as int),
{
    Vec4h {
        x: dot4(m.e00, m.e01, m.e02, m.e03, px as i128, py as i128, pz as i128, pd as i128),
        y: dot4(m.e10, m.e11, m.e12, m.e13, px as i128, py as i128, pz as i128, pd as i128),
        z: dot4(m.e20, m.e21, m.e22, m.e23, px as i128, py as i128, pz as i128, pd as i128),
        w: dot4(m.e30, m.e31, m.e32, m.e33, px as i128, py as i128, pz as i128, pd as i128),
    }
}

} // verus!
