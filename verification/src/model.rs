//! Model placement.
//!
//! A model is a loaded collection of mesh objects (vertex buffers,
//! textures and material colors live with the loader and the GPU) plus a
//! placement shared by all of them: a translation and a uniform scale.
//! Only the placement feeds the verified pipeline, as the model matrix
//! composed with the camera's view-projection for every draw.

use crate::camera::POSITION_BOUND;
use crate::matrix::GMat;
use crate::matrix::Mat4;
use crate::rational::Rat;
use crate::vector::gadd;
use crate::vector::gcross;
use crate::vector::gsub;
use crate::vector::GVec3;
use crate::vector::Vec3r;
use crate::vector::Vec3w;
use vstd::prelude::*;

verus! {

/// Placement of a loaded model: translation and uniform scale.
#[derive(Clone, Copy, Debug)]
pub struct Model {
    pub position: Vec3r,
    pub scale: Rat,
}

impl Model {
    /// Valid placement: both parts within the model bound, positive
    /// denominators.
    pub open spec fn wf(self) -> bool {
        &&& self.position.wf()
        &&& self.position.bounded(POSITION_BOUND as int)
        &&& self.scale.wf()
        &&& self.scale.bounded(POSITION_BOUND as int)
    }

    /// A model at the origin with scale one.
    pub fn new() -> (r: Model)
        ensures
            r.wf(),
            r.position == (Vec3r { x: 0, y: 0, z: 0, den: 1 }),
            r.scale.num == 1 && r.scale.den == 1,
    {
        Model { position: Vec3r { x: 0, y: 0, z: 0, den: 1 }, scale: Rat { num: 1, den: 1 } }
    }

    /// Moves the model.
    pub fn set_position(&mut self, position: Vec3r)
        requires
            position.wf(),
            position.bounded(POSITION_BOUND as int),
        ensures
            final(self).position == position,
            final(self).scale == old(self).scale,
            old(self).wf() ==> final(self).wf(),
    {
        self.position = position;
    }

    /// Rescales the model uniformly.
    pub fn set_scale(&mut self, scale: Rat)
        requires
            scale.wf(),
            scale.bounded(POSITION_BOUND as int),
        ensures
            final(self).scale == scale,
            final(self).position == old(self).position,
            old(self).wf() ==> final(self).wf(),
    {
        self.scale = scale;
    }

    /// The model matrix: translation composed with uniform scale.
    pub fn get_transform(&self) -> (r: Mat4)
        requires
            self.wf(),
        ensures
            r.view() == gmodel_transform(
                self.scale.num as int, self.scale.den as int,
                self.position.x as int, self.position.y as int, self.position.z as int,
                self.position.den as int,
            ),
            r.wf(),
    {
        let sn = self.scale.num;
        let sd = self.scale.den;
        let px = self.position.x;
        let py = self.position.y;
        let pz = self.position.z;
        let pd = self.position.den;
        proof {
            crate::matrix::lemma_mul_magnitude_bound(
                sn as int, pd as int, POSITION_BOUND as int, POSITION_BOUND as int);
            crate::matrix::lemma_mul_magnitude_bound(
                px as int, sd as int, POSITION_BOUND as int, POSITION_BOUND as int);
            crate::matrix::lemma_mul_magnitude_bound(
                py as int, sd as int, POSITION_BOUND as int, POSITION_BOUND as int);
            crate::matrix::lemma_mul_magnitude_bound(
                pz as int, sd as int, POSITION_BOUND as int, POSITION_BOUND as int);
            crate::matrix::lemma_mul_magnitude_bound(
                sd as int, pd as int, POSITION_BOUND as int, POSITION_BOUND as int);
            crate::rational::lemma_pos_mul_pos(sd as int, pd as int);
        }
        Mat4 {
            e00: (sn as i128) * (pd as i128),
            e01: 0,
            e02: 0,
            e03: (px as i128) * (sd as i128),
            e10: 0,
            e11: (sn as i128) * (pd as i128),
            e12: 0,
            e13: (py as i128) * (sd as i128),
            e20: 0,
            e21: 0,
            e22: (sn as i128) * (pd as i128),
            e23: (pz as i128) * (sd as i128),
            e30: 0,
            e31: 0,
            e32: 0,
            e33: (sd as i128) * (pd as i128),
            den: (sd as i128) * (pd as i128),
        }
    }
}

/// The ghost model matrix for scale `sn / sd` and translation
/// `(px, py, pz) / pd`; the shared denominator is `sd * pd`.
pub open spec fn gmodel_transform(sn: int, sd: int, px: int, py: int, pz: int, pd: int) -> GMat {
    GMat {
        e00: sn * pd,
        e01: 0,
        e02: 0,
        e03: px * sd,
        e10: 0,
        e11: sn * pd,
        e12: 0,
        e13: py * sd,
        e20: 0,
        e21: 0,
        e22: sn * pd,
        e23: pz * sd,
        e30: 0,
        e31: 0,
        e32: 0,
        e33: sd * pd,
        den: sd * pd,
    }
}

/// Magnitude bound on one component of one face's area-weighted normal:
/// a cross product of edge vectors between bounded grid positions.
pub const FACE_NORMAL_BOUND: i128 = 0x800_0000_0000;

/// Largest number of triangles the normal accumulation accepts.
pub const MAX_FACES: usize = 0x2000_0000;

/// The numerator triple of one grid position.
pub open spec fn gposition(positions: Seq<(i64, i64, i64)>, i: int) -> GVec3 {
    GVec3 {
        x: positions[i].0 as int,
        y: positions[i].1 as int,
        z: positions[i].2 as int,
    }
}

/// The area-weighted normal of one triangle: the cross product of its
/// edge vectors, whose length is twice the triangle's area.
pub open spec fn gface_normal(positions: Seq<(i64, i64, i64)>, faces: Seq<(u32, u32, u32)>, f: int) -> GVec3 {
    gcross(
        gsub(gposition(positions, faces[f].1 as int), gposition(positions, faces[f].0 as int)),
        gsub(gposition(positions, faces[f].2 as int), gposition(positions, faces[f].0 as int)),
    )
}

/// The vertex the accumulation slot `s` feeds: slot `3 f + k` is corner
/// `k` of face `f`.
pub open spec fn gslot_vertex(faces: Seq<(u32, u32, u32)>, s: int) -> int {
    if s % 3 == 0 {
        faces[s / 3].0 as int
    } else if s % 3 == 1 {
        faces[s / 3].1 as int
    } else {
        faces[s / 3].2 as int
    }
}

/// The per-vertex normal sums after feeding the first `s` accumulation
/// slots: every corner of every face adds its face's area-weighted
/// normal to its vertex.
pub open spec fn gnormals_after(
    positions: Seq<(i64, i64, i64)>, faces: Seq<(u32, u32, u32)>, s: int,
) -> Seq<GVec3>
    decreases s,
{
    if s <= 0 {
        Seq::new(positions.len(), |i: int| GVec3 { x: 0, y: 0, z: 0 })
    } else {
        let prev = gnormals_after(positions, faces, s - 1);
        let v = gslot_vertex(faces, s - 1);
        prev.update(v, gadd(prev[v], gface_normal(positions, faces, (s - 1) / 3)))
    }
}

/// The accumulated-normal sequence always has one entry per position.
pub proof fn lemma_gnormals_after_len(
    positions: Seq<(i64, i64, i64)>, faces: Seq<(u32, u32, u32)>, s: int,
)
    requires
        mesh_in_range(positions, faces),
        s <= 3 * faces.len(),
    ensures
        gnormals_after(positions, faces, s).len() == positions.len(),
    decreases s,
{
    if s > 0 {
        lemma_gnormals_after_len(positions, faces, s - 1);
    }
}

/// All positions on the bounded grid, all face indices in range.
pub open spec fn mesh_in_range(
    positions: Seq<(i64, i64, i64)>, faces: Seq<(u32, u32, u32)>,
) -> bool {
    &&& forall|i: int|
        0 <= i < positions.len() ==> -POSITION_BOUND <= (#[trigger] positions[i]).0
            <= POSITION_BOUND && -POSITION_BOUND <= positions[i].1 <= POSITION_BOUND
            && -POSITION_BOUND <= positions[i].2 <= POSITION_BOUND
    &&& forall|f: int|
        0 <= f < faces.len() ==> (#[trigger] faces[f]).0 < positions.len() && faces[f].1
            < positions.len() && faces[f].2 < positions.len()
}

/// One consistent, exact area-weighted vertex-normal accumulation for a
/// loaded mesh: every triangle adds its cross-product normal to each of
/// its three vertices, so vertices shared between faces receive the
/// area-weighted sum of the adjacent face normals.  The caller
/// normalizes per vertex at the device boundary.
pub fn accumulate_vertex_normals(
    positions: &Vec<(i64, i64, i64)>, faces: &Vec<(u32, u32, u32)>,
) -> (r: Vec<Vec3w>)
    requires
        mesh_in_range(positions@, faces@),
        faces@.len() <= MAX_FACES,
    ensures
        r@.len() == positions@.len(),
        forall|v: int|
            0 <= v < r@.len() ==> (#[trigger] r@[v]).gnum() == gnormals_after(
                positions@, faces@, 3 * faces@.len() as int,
            )[v],
{
    let mut normals: Vec<Vec3w> = Vec::new();
    let mut i: usize = 0;
    while i < positions.len()
        invariant
            i <= positions@.len(),
            normals@.len() == i,
            forall|v: int|
                0 <= v < i ==> (#[trigger] normals@[v]) == (Vec3w { x: 0, y: 0, z: 0 }),
        decreases positions@.len() - i,
    {
        normals.push(Vec3w { x: 0, y: 0, z: 0 });
        i = i + 1;
    }
    proof {
        assert forall|v: int| 0 <= v < normals@.len() implies (#[trigger] normals@[v]).gnum()
            == gnormals_after(positions@, faces@, 0)[v] by {
        }
    }
    let total: usize = 3 * faces.len();
    let mut s: usize = 0;
    while s < total
        invariant
            s <= total,
            total == 3 * faces@.len(),
            faces@.len() <= MAX_FACES,
            mesh_in_range(positions@, faces@),
            normals@.len() == positions@.len(),
            forall|v: int|
                0 <= v < normals@.len() ==> (#[trigger] normals@[v]).gnum() == gnormals_after(
                    positions@, faces@, s as int,
                )[v],
            forall|v: int|
                0 <= v < normals@.len() ==> -(s as int) * FACE_NORMAL_BOUND <= (
                #[trigger] normals@[v]).x <= (s as int) * FACE_NORMAL_BOUND && -(s as int)
                    * FACE_NORMAL_BOUND <= normals@[v].y <= (s as int) * FACE_NORMAL_BOUND && -(
                s as int) * FACE_NORMAL_BOUND <= normals@[v].z <= (s as int) * FACE_NORMAL_BOUND,
        decreases total - s,
    {
        let f: usize = s / 3;
        let corner: usize = s % 3;
        let (i0, i1, i2) = faces[f];
        let a = positions[i0 as usize];
        let b = positions[i1 as usize];
        let c = positions[i2 as usize];
        // Edge vectors of the face; exact in 64 bits on the bounded grid.
        let e1: (i64, i64, i64) = (b.0 - a.0, b.1 - a.1, b.2 - a.2);
        let e2: (i64, i64, i64) = (c.0 - a.0, c.1 - a.1, c.2 - a.2);
        proof {
            lemma_edge_cross_bounds(
                e1.0 as int, e1.1 as int, e1.2 as int, e2.0 as int, e2.1 as int, e2.2 as int);
            crate::matrix::lemma_mul_magnitude_bound(
                s as int, FACE_NORMAL_BOUND as int, 3 * MAX_FACES as int, FACE_NORMAL_BOUND as int);
            crate::matrix::lemma_distribute2(s as int, 1, FACE_NORMAL_BOUND as int);
        }
        let face_normal = Vec3w {
            x: (e1.1 as i128) * (e2.2 as i128) - (e1.2 as i128) * (e2.1 as i128),
            y: (e1.2 as i128) * (e2.0 as i128) - (e1.0 as i128) * (e2.2 as i128),
            z: (e1.0 as i128) * (e2.1 as i128) - (e1.1 as i128) * (e2.0 as i128),
        };
        proof {
            assert(face_normal.gnum() == gface_normal(positions@, faces@, s as int / 3));
        }
        let v: usize = if corner == 0 {
            i0 as usize
        } else if corner == 1 {
            i1 as usize
        } else {
            i2 as usize
        };
        proof {
            assert(gslot_vertex(faces@, s as int) == v as int);
        }
        let ghost prev_normals = normals@;
        let current = normals[v];
        normals.set(v, Vec3w {
            x: current.x + face_normal.x,
            y: current.y + face_normal.y,
            z: current.z + face_normal.z,
        });
        proof {
            lemma_gnormals_after_len(positions@, faces@, s as int);
            lemma_gnormals_after_len(positions@, faces@, s as int + 1);
            assert forall|u: int| 0 <= u < normals@.len() implies (#[trigger] normals@[u]).gnum()
                == gnormals_after(positions@, faces@, s as int + 1)[u] by {
                if u == v as int {
                    assert(normals@[u].gnum() == gadd(
                        prev_normals[u].gnum(),
                        gface_normal(positions@, faces@, s as int / 3),
                    ));
                } else {
                    assert(normals@[u] == prev_normals[u]);
                }
            }
        }
        s = s + 1;
    }
    normals
}

/// Each product and each component of a cross product of bounded edge
/// vectors is bounded.
proof fn lemma_edge_cross_bounds(ax: int, ay: int, az: int, bx: int, by: int, bz: int)
    requires
        -2097152 <= ax <= 2097152,
        -2097152 <= ay <= 2097152,
        -2097152 <= az <= 2097152,
        -2097152 <= bx <= 2097152,
        -2097152 <= by <= 2097152,
        -2097152 <= bz <= 2097152,
    ensures
        -4398046511104 <= ay * bz <= 4398046511104,
        -4398046511104 <= az * by <= 4398046511104,
        -4398046511104 <= az * bx <= 4398046511104,
        -4398046511104 <= ax * bz <= 4398046511104,
        -4398046511104 <= ax * by <= 4398046511104,
        -4398046511104 <= ay * bx <= 4398046511104,
        -FACE_NORMAL_BOUND <= ay * bz - az * by <= FACE_NORMAL_BOUND,
        -FACE_NORMAL_BOUND <= az * bx - ax * bz <= FACE_NORMAL_BOUND,
        -FACE_NORMAL_BOUND <= ax * by - ay * bx <= FACE_NORMAL_BOUND,
{
    crate::matrix::lemma_mul_magnitude_bound(ay, bz, 2097152, 2097152);
    crate::matrix::lemma_mul_magnitude_bound(az, by, 2097152, 2097152);
    crate::matrix::lemma_mul_magnitude_bound(az, bx, 2097152, 2097152);
    crate::matrix::lemma_mul_magnitude_bound(ax, bz, 2097152, 2097152);
    crate::matrix::lemma_mul_magnitude_bound(ax, by, 2097152, 2097152);
    crate::matrix::lemma_mul_magnitude_bound(ay, bx, 2097152, 2097152);
}

} // verus!
