//! Exact 3-vectors.
//!
//! World positions (camera, light, model translation) are held as three
//! integer numerators over one shared positive denominator.  Dot and
//! cross products are stated over the ghost numerator triples; scaling by
//! the denominators never changes orthogonality or signs, so the laws
//! about view bases are stated on the numerators alone.

use vstd::prelude::*;

verus! {

/// The mathematical value of a 3-vector's numerators.
pub ghost struct GVec3 {
    pub x: int,
    pub y: int,
    pub z: int,
}

/// Dot product of numerator triples.
pub open spec fn gdot(a: GVec3, b: GVec3) -> int {
    a.x * b.x + a.y * b.y + a.z * b.z
}

/// Componentwise difference of numerator triples.
pub open spec fn gsub(a: GVec3, b: GVec3) -> GVec3 {
    GVec3 { x: a.x - b.x, y: a.y - b.y, z: a.z - b.z }
}

/// Componentwise sum of numerator triples.
pub open spec fn gadd(a: GVec3, b: GVec3) -> GVec3 {
    GVec3 { x: a.x + b.x, y: a.y + b.y, z: a.z + b.z }
}

/// Cross product of numerator triples.
pub open spec fn gcross(a: GVec3, b: GVec3) -> GVec3 {
    GVec3 {
        x: a.y * b.z - a.z * b.y,
        y: a.z * b.x - a.x * b.z,
        z: a.x * b.y - a.y * b.x,
    }
}

/// A rational position: `(x, y, z) / den` with `den > 0`.
#[derive(Clone, Copy, Debug)]
pub struct Vec3r {
    pub x: i64,
    pub y: i64,
    pub z: i64,
    pub den: i64,
}

impl Vec3r {
    /// The numerator triple as a ghost value.
    pub open spec fn gnum(self) -> GVec3 {
        GVec3 { x: self.x as int, y: self.y as int, z: self.z as int }
    }

    /// The representation is usable only with a positive denominator.
    pub open spec fn wf(self) -> bool {
        self.den > 0
    }

    /// All numerators within `b` in magnitude, denominator at most `b`.
    pub open spec fn bounded(self, b: int) -> bool {
        -b <= self.x <= b && -b <= self.y <= b && -b <= self.z <= b && self.den <= b
    }

    /// The position `(x, y, z) / den`.
    pub fn new(x: i64, y: i64, z: i64, den: i64) -> (r: Vec3r)
        requires
            den > 0,
        ensures
            r == (Vec3r { x, y, z, den }),
    {
        Vec3r { x, y, z, den }
    }
}

/// An exact integer 3-vector with wide components, used for derived
/// quantities such as unnormalized view-basis vectors.
#[derive(Clone, Copy, Debug)]
pub struct Vec3w {
    pub x: i128,
    pub y: i128,
    pub z: i128,
}

impl Vec3w {
    /// The component triple as a ghost value.
    pub open spec fn gnum(self) -> GVec3 {
        GVec3 { x: self.x as int, y: self.y as int, z: self.z as int }
    }
}

} // verus!
