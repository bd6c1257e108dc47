//! The shadow pass: light-space matrices and the depth-only render.
//!
//! The light is treated as directional: a fixed orthographic box around
//! the scene origin bounds the shadow-casting volume, and a look-at
//! basis from the light position toward the origin orients it.  The
//! depth-only render clears the square depth target to the far plane and
//! folds every rasterized sample in with the less-than depth test.  The
//! bias matrix then turns light clip space `[-1, 1]` into shadow-map
//! texture space `[0, 1]` for the scene pass.

use crate::camera::POSITION_BOUND;
use crate::matrix::gmat_apply;
use crate::matrix::gmat_mul;
use crate::matrix::GMat;
use crate::matrix::Mat4;
use crate::rational::Rat;
use crate::shadow_map::DepthMap;
use crate::shadow_map::PoissonKernel;
use crate::shadow_map::DEPTH_ONE;
use crate::shadow_map::MAX_SHADOW_TARGET;
use crate::vector::gcross;
use crate::vector::gdot;
use crate::vector::GVec3;
use crate::vector::Vec3r;
use crate::vector::Vec3w;
use vstd::prelude::*;

verus! {

/// Side length of the shadow depth target, in texels.
pub const SHADOW_SIZE: u32 = 1024 * 5;

/// One rasterized depth sample of the shadow pass.
#[derive(Clone, Copy, Debug)]
pub struct DepthSample {
    pub x: u32,
    pub y: u32,
    pub depth: u32,
}

/// All samples address the target and carry depths within `[0, 1]`.
pub open spec fn samples_valid(size: int, samples: Seq<DepthSample>) -> bool {
    forall|i: int|
        0 <= i < samples.len() ==> (#[trigger] samples[i]).x < size && samples[i].y < size
            && samples[i].depth <= DEPTH_ONE
}

/// The cleared target: every texel at the far plane.
pub open spec fn gcleared(size: int) -> Seq<u32> {
    Seq::new((size * size) as nat, |i: int| DEPTH_ONE)
}

/// The target contents after folding in the first `n` samples with the
/// less-than depth test.
pub open spec fn gdepth_after(size: int, samples: Seq<DepthSample>, n: int) -> Seq<u32>
    decreases n,
{
    if n <= 0 {
        gcleared(size)
    } else {
        let prev = gdepth_after(size, samples, n - 1);
        let s = samples[n - 1];
        let idx = s.y * size + s.x;
        prev.update(idx, if (s.depth as u32) < prev[idx] {
            s.depth as u32
        } else {
            prev[idx]
        })
    }
}

/// The shadow pass subsystem: orthographic bounds, target and kernel.
#[derive(Debug)]
pub struct ShadowRenderSystem {
    pub half_width: i64,
    pub near: i64,
    pub far: i64,
    pub size: u32,
    pub kernel: PoissonKernel,
    pub target: DepthMap,
}

impl ShadowRenderSystem {
    /// Valid subsystem: a positive bounded orthographic box with
    /// `near < far`, a valid kernel and a matching allocated target.
    pub open spec fn wf(self) -> bool {
        &&& 1 <= self.half_width <= POSITION_BOUND
        &&& -POSITION_BOUND <= self.near < self.far <= POSITION_BOUND
        &&& 1 <= self.size <= MAX_SHADOW_TARGET
        &&& self.kernel.wf()
        &&& self.target.wf()
        &&& self.target.size == self.size
    }

    /// Builds the subsystem, validating the orthographic bounds and the
    /// kernel offsets; failure is a startup configuration error.
    pub fn new(size: u32, half_width: i64, near: i64, far: i64, points: Vec<(i64, i64)>) -> (r:
        Option<ShadowRenderSystem>)
        ensures
            r is Some <==> {
                &&& 1 <= half_width <= POSITION_BOUND
                &&& -POSITION_BOUND <= near < far <= POSITION_BOUND
                &&& 1 <= size <= MAX_SHADOW_TARGET
                &&& (PoissonKernel { offsets: points }).wf()
            },
            r is Some ==> r.unwrap().wf() && r.unwrap().half_width == half_width
                && r.unwrap().near == near && r.unwrap().far == far && r.unwrap().size == size
                && r.unwrap().kernel.offsets@ == points@,
    {
        let bounds_ok = 1 <= half_width && half_width <= POSITION_BOUND && -POSITION_BOUND <= near
            && near < far && far <= POSITION_BOUND;
        if !bounds_ok {
            return None;
        }
        let kernel = match PoissonKernel::from_points(points) {
            Some(k) => k,
            None => {
                return None;
            },
        };
        let target = match DepthMap::new(size) {
            Some(t) => t,
            None => {
                return None;
            },
        };
        Some(ShadowRenderSystem { half_width, near, far, size, kernel, target })
    }

    /// The fixed orthographic light projection over the configured box.
    pub fn get_projection_matrix(&self) -> (r: Mat4)
        requires
            self.wf(),
        ensures
            r.view() == gortho(self.half_width as int, self.near as int, self.far as int),
            r.wf(),
    {
        let hw = self.half_width;
        let n = self.near;
        let f = self.far;
        proof {
            crate::matrix::lemma_mul_magnitude_bound(
                (f - n) as int, hw as int, 2 * POSITION_BOUND as int, POSITION_BOUND as int);
            crate::matrix::lemma_mul_magnitude_bound(
                (f + n) as int, hw as int, 2 * POSITION_BOUND as int, POSITION_BOUND as int);
            crate::matrix::lemma_mul_comm(hw as int, (f - n) as int);
            crate::rational::lemma_pos_mul_pos(hw as int, (f - n) as int);
        }
        Mat4 {
            e00: (f as i128) - (n as i128),
            e01: 0,
            e02: 0,
            e03: 0,
            e10: 0,
            e11: (f as i128) - (n as i128),
            e12: 0,
            e13: 0,
            e20: 0,
            e21: 0,
            e22: -(2 * (hw as i128)),
            e23: -(((f as i128) + (n as i128)) * (hw as i128)),
            e30: 0,
            e31: 0,
            e32: 0,
            e33: ((f as i128) - (n as i128)) * (hw as i128),
            den: ((f as i128) - (n as i128)) * (hw as i128),
        }
    }

    /// The unnormalized look-at basis from the light toward the origin,
    /// over the fixed up axis `+y`: look, side and up vectors whose
    /// normalized forms are the rows of the light view matrix.
    pub fn get_view_basis(&self, light_position: &Vec3r) -> (r: LightBasis)
        requires
            light_position.wf(),
            light_position.bounded(POSITION_BOUND as int),
        ensures
            r.forward.gnum() == glight_forward(
                light_position.x as int, light_position.y as int, light_position.z as int),
            r.side.gnum() == glight_side(
                light_position.x as int, light_position.y as int, light_position.z as int),
            r.up.gnum() == glight_up(
                light_position.x as int, light_position.y as int, light_position.z as int),
    {
        let lx = light_position.x;
        let ly = light_position.y;
        let lz = light_position.z;
        proof {
            crate::matrix::lemma_neg_mul(lx as int, ly as int);
            crate::matrix::lemma_neg_mul(lx as int, lx as int);
            crate::matrix::lemma_neg_mul(lz as int, lz as int);
            crate::matrix::lemma_neg_mul(lz as int, ly as int);
            crate::matrix::lemma_mul_magnitude_bound(
                lx as int, ly as int, POSITION_BOUND as int, POSITION_BOUND as int);
            crate::matrix::lemma_mul_magnitude_bound(
                lx as int, lx as int, POSITION_BOUND as int, POSITION_BOUND as int);
            crate::matrix::lemma_mul_magnitude_bound(
                lz as int, lz as int, POSITION_BOUND as int, POSITION_BOUND as int);
            crate::matrix::lemma_mul_magnitude_bound(
                lz as int, ly as int, POSITION_BOUND as int, POSITION_BOUND as int);
        }
        LightBasis {
            forward: Vec3w { x: -(lx as i128), y: -(ly as i128), z: -(lz as i128) },
            side: Vec3w { x: lz as i128, y: 0, z: -(lx as i128) },
            up: Vec3w {
                x: -((lx as i128) * (ly as i128)),
                y: (lx as i128) * (lx as i128) + (lz as i128) * (lz as i128),
                z: -((lz as i128) * (ly as i128)),
            },
        }
    }

    /// Renders the depth-only shadow pass: clears the target to the far
    /// plane and folds in every sample with the less-than depth test.
    pub fn render_depth(&mut self, samples: &Vec<DepthSample>)
        requires
            old(self).wf(),
            samples_valid(old(self).size as int, samples@),
        ensures
            final(self).wf(),
            final(self).half_width == old(self).half_width,
            final(self).near == old(self).near,
            final(self).far == old(self).far,
            final(self).size == old(self).size,
            final(self).kernel == old(self).kernel,
            final(self).target.size == old(self).size,
            final(self).target.data@ == gdepth_after(
                old(self).size as int, samples@, samples@.len() as int),
    {
        self.target.clear();
        proof {
            assert(self.target.data@ =~= gcleared(self.size as int));
        }
        let n: usize = samples.len();
        let mut i: usize = 0;
        while i < n
            invariant
                i <= n,
                n == samples@.len(),
                samples_valid(old(self).size as int, samples@),
                self.half_width == old(self).half_width,
                self.near == old(self).near,
                self.far == old(self).far,
                self.size == old(self).size,
                self.kernel == old(self).kernel,
                old(self).wf(),
                self.target.wf(),
                self.target.size == old(self).size,
                self.target.data@ == gdepth_after(old(self).size as int, samples@, i as int),
            decreases n - i,
        {
            let s = samples[i];
            self.target.min_write(s.x, s.y, s.depth);
            i = i + 1;
        }
    }

    /// The kernel the scene pass samples with.
    pub fn get_poisson_kernel(&self) -> (r: &PoissonKernel)
        ensures
            r == self.kernel,
    {
        &self.kernel
    }

    /// The depth target the scene pass reads.
    pub fn get_shadow_target(&self) -> (r: &DepthMap)
        ensures
            r == self.target,
    {
        &self.target
    }

    /// The side length of one shadow-map texel, as a fraction of the
    /// target: `1 / size`.
    pub fn texel_size(&self) -> (r: Rat)
        requires
            self.wf(),
        ensures
            r.wf(),
            r.num == 1,
            r.den == self.size,
    {
        Rat { num: 1, den: self.size as i64 }
    }
}

/// The unnormalized light-space basis vectors.
#[derive(Clone, Copy, Debug)]
pub struct LightBasis {
    pub forward: Vec3w,
    pub side: Vec3w,
    pub up: Vec3w,
}

/// The look vector: from the light position toward the origin.
pub open spec fn glight_forward(lx: int, ly: int, lz: int) -> GVec3 {
    GVec3 { x: -lx, y: -ly, z: -lz }
}

/// The fixed up axis the basis is built over.
pub open spec fn glight_world_up() -> GVec3 {
    GVec3 { x: 0, y: 1, z: 0 }
}

/// The side vector: look crossed with the world up axis.
pub open spec fn glight_side(lx: int, ly: int, lz: int) -> GVec3 {
    gcross(glight_forward(lx, ly, lz), glight_world_up())
}

/// The view up vector: side crossed with look.
pub open spec fn glight_up(lx: int, ly: int, lz: int) -> GVec3 {
    gcross(glight_side(lx, ly, lz), glight_forward(lx, ly, lz))
}

/// The ghost orthographic projection over the symmetric box of half
/// width `hw` with clip planes `n < f`; shared denominator
/// `(f - n) * hw`.
pub open spec fn gortho(hw: int, n: int, f: int) -> GMat {
    GMat {
        e00: f - n,
        e01: 0,
        e02: 0,
        e03: 0,
        e10: 0,
        e11: f - n,
        e12: 0,
        e13: 0,
        e20: 0,
        e21: 0,
        e22: -(2 * hw),
        e23: -((f + n) * hw),
        e30: 0,
        e31: 0,
        e32: 0,
        e33: (f - n) * hw,
        den: (f - n) * hw,
    }
}

/// The fixed bias matrix: maps clip space `[-1, 1]` to texture space
/// `[0, 1]` on every axis (`v` goes to `(v + 1) / 2`).
pub open spec fn gbias() -> GMat {
    GMat {
        e00: 1, e01: 0, e02: 0, e03: 1,
        e10: 0, e11: 1, e12: 0, e13: 1,
        e20: 0, e21: 0, e22: 1, e23: 1,
        e30: 0, e31: 0, e32: 0, e33: 2,
        den: 2,
    }
}

/// The executable bias matrix.
pub fn bias_matrix() -> (r: Mat4)
    ensures
        r.view() == gbias(),
        r.wf(),
{
    Mat4 {
        e00: 1, e01: 0, e02: 0, e03: 1,
        e10: 0, e11: 1, e12: 0, e13: 1,
        e20: 0, e21: 0, e22: 1, e23: 1,
        e30: 0, e31: 0, e32: 0, e33: 2,
        den: 2,
    }
}

/// The light-view basis is orthogonal, and orthonormal once each
/// vector is divided by its length.
///
/// For any light position not on the up axis through the origin, the
/// three basis vectors are pairwise orthogonal, the side and look
/// vectors have positive squared length, and the squared length of the
/// up vector is exactly the product of the other two squared lengths,
/// so dividing each vector by its length yields an orthonormal basis.
/// On the up axis the side vector vanishes: the documented degenerate
/// case.
pub proof fn lemma_light_view_basis_orthonormal(lx: int, ly: int, lz: int)
    ensures
        gdot(glight_forward(lx, ly, lz), glight_side(lx, ly, lz)) == 0,
        gdot(glight_side(lx, ly, lz), glight_up(lx, ly, lz)) == 0,
        gdot(glight_forward(lx, ly, lz), glight_up(lx, ly, lz)) == 0,
        gdot(glight_side(lx, ly, lz), glight_side(lx, ly, lz)) == lx * lx + lz * lz,
        gdot(glight_forward(lx, ly, lz), glight_forward(lx, ly, lz)) == lx * lx + ly * ly + lz
            * lz,
        lx != 0 || lz != 0 ==> gdot(glight_side(lx, ly, lz), glight_side(lx, ly, lz)) > 0,
        lx != 0 || lz != 0 ==> gdot(glight_forward(lx, ly, lz), glight_forward(lx, ly, lz)) > 0,
        gdot(glight_up(lx, ly, lz), glight_up(lx, ly, lz)) == gdot(
            glight_side(lx, ly, lz),
            glight_side(lx, ly, lz),
        ) * gdot(glight_forward(lx, ly, lz), glight_forward(lx, ly, lz)),
        lx == 0 && lz == 0 ==> gdot(glight_side(lx, ly, lz), glight_side(lx, ly, lz)) == 0,
{
    // The basis components, with signs moved out of the cross products.
    assert(glight_side(lx, ly, lz).x == lz);
    assert(glight_side(lx, ly, lz).y == 0);
    assert(glight_side(lx, ly, lz).z == -lx);
    crate::matrix::lemma_neg_mul(lx, ly);
    crate::matrix::lemma_neg_mul(lx, lx);
    crate::matrix::lemma_neg_mul(ly, ly);
    crate::matrix::lemma_neg_mul(lz, lz);
    crate::matrix::lemma_neg_mul(lz, ly);
    crate::matrix::lemma_neg_mul(lx, lz);
    crate::matrix::lemma_neg_mul(lz, lx);
    assert(glight_up(lx, ly, lz).x == -(lx * ly));
    assert(glight_up(lx, ly, lz).y == lx * lx + lz * lz);
    assert(glight_up(lx, ly, lz).z == -(lz * ly));
    // look . side
    crate::matrix::lemma_mul_comm(lx, lz);
    assert(gdot(glight_forward(lx, ly, lz), glight_side(lx, ly, lz)) == 0);
    // side . up
    crate::matrix::lemma_neg_mul(lz, lx * ly);
    crate::matrix::lemma_neg_mul(lx, lz * ly);
    crate::matrix::lemma_mul_assoc(lz, lx, ly);
    crate::matrix::lemma_mul_assoc(lx, lz, ly);
    assert(gdot(glight_side(lx, ly, lz), glight_up(lx, ly, lz)) == 0);
    // look . up
    crate::matrix::lemma_neg_mul(lx, lx * ly);
    crate::matrix::lemma_neg_mul(ly, lx * lx + lz * lz);
    crate::matrix::lemma_neg_mul(lz, lz * ly);
    crate::matrix::lemma_left_distribute2(ly, lx * lx, lz * lz);
    crate::matrix::lemma_mul_assoc(lx, lx, ly);
    crate::matrix::lemma_mul_comm(ly, lx * lx);
    crate::matrix::lemma_mul_assoc(lz, lz, ly);
    crate::matrix::lemma_mul_comm(ly, lz * lz);
    assert(gdot(glight_forward(lx, ly, lz), glight_up(lx, ly, lz)) == 0);
    // Squared lengths, positive away from the degenerate axis.
    assert(gdot(glight_side(lx, ly, lz), glight_side(lx, ly, lz)) == lx * lx + lz * lz);
    assert(gdot(glight_forward(lx, ly, lz), glight_forward(lx, ly, lz)) == lx * lx + ly * ly
        + lz * lz);
    crate::matrix::lemma_square_sign(lx);
    crate::matrix::lemma_square_sign(ly);
    crate::matrix::lemma_square_sign(lz);
    // Gram identity: |up|^2 == |side|^2 * |look|^2.
    crate::matrix::lemma_neg_mul(lx * ly, lx * ly);
    crate::matrix::lemma_neg_mul(lz * ly, lz * ly);
    crate::matrix::lemma_mul_pairings(lx, ly, lx, ly);
    crate::matrix::lemma_mul_pairings(lz, ly, lz, ly);
    crate::matrix::lemma_left_distribute2(lx * lx + lz * lz, lx * lx, lz * lz);
    crate::matrix::lemma_distribute2(lx * lx, lz * lz, lx * lx);
    crate::matrix::lemma_distribute2(lx * lx, lz * lz, lz * lz);
    crate::matrix::lemma_left_distribute3(lx * lx + lz * lz, lx * lx, ly * ly, lz * lz);
    crate::matrix::lemma_distribute2(lx * lx, lz * lz, ly * ly);
    assert(gdot(glight_up(lx, ly, lz), glight_up(lx, ly, lz)) == gdot(
        glight_side(lx, ly, lz),
        glight_side(lx, ly, lz),
    ) * gdot(glight_forward(lx, ly, lz), glight_forward(lx, ly, lz)));
}

/// The shadow-map lookup of every point of the light-space visible box
/// lands inside the unit cube.
///
/// The visible box in light view space is `[-hw, hw]` on both lateral
/// axes and `[-f, -n]` in depth.  Composing the bias matrix with the
/// orthographic light projection maps any rational point
/// `(px, py, pz) / pd` of that box to texture coordinates and depth
/// inside `[0, 1]`: each output component lies between zero and the
/// (positive) homogeneous coordinate.
pub proof fn lemma_shadow_lookup_in_unit_cube(
    hw: int, n: int, f: int, px: int, py: int, pz: int, pd: int,
)
    requires
        hw >= 1,
        pd >= 1,
        n < f,
        -(hw * pd) <= px <= hw * pd,
        -(hw * pd) <= py <= hw * pd,
        -(f * pd) <= pz <= -(n * pd),
    ensures
        gmat_apply(gmat_mul(gbias(), gortho(hw, n, f)), px, py, pz, pd).w > 0,
        0 <= gmat_apply(gmat_mul(gbias(), gortho(hw, n, f)), px, py, pz, pd).x <= gmat_apply(
            gmat_mul(gbias(), gortho(hw, n, f)), px, py, pz, pd).w,
        0 <= gmat_apply(gmat_mul(gbias(), gortho(hw, n, f)), px, py, pz, pd).y <= gmat_apply(
            gmat_mul(gbias(), gortho(hw, n, f)), px, py, pz, pd).w,
        0 <= gmat_apply(gmat_mul(gbias(), gortho(hw, n, f)), px, py, pz, pd).z <= gmat_apply(
            gmat_mul(gbias(), gortho(hw, n, f)), px, py, pz, pd).w,
{
    // The composed matrix, entry by entry.
    assert(gbias().e02 * gortho(hw, n, f).e23 == 0);
    assert(gbias().e03 * gortho(hw, n, f).e33 == (f - n) * hw);
    assert(gbias().e12 * gortho(hw, n, f).e23 == 0);
    assert(gbias().e13 * gortho(hw, n, f).e33 == (f - n) * hw);
    assert(gbias().e22 * gortho(hw, n, f).e22 == -(2 * hw));
    assert(gbias().e22 * gortho(hw, n, f).e23 == -((f + n) * hw));
    assert(gbias().e23 * gortho(hw, n, f).e33 == (f - n) * hw);
    assert(gmat_mul(gbias(), gortho(hw, n, f)).e00 == f - n);
    assert(gmat_mul(gbias(), gortho(hw, n, f)).e03 == (f - n) * hw);
    assert(gmat_mul(gbias(), gortho(hw, n, f)).e11 == f - n);
    assert(gmat_mul(gbias(), gortho(hw, n, f)).e13 == (f - n) * hw);
    crate::matrix::lemma_distribute2(f, n, hw);
    assert(gmat_mul(gbias(), gortho(hw, n, f)).e22 == -(2 * hw));
    assert(gmat_mul(gbias(), gortho(hw, n, f)).e23 == -(2 * (n * hw)));
    assert(gmat_mul(gbias(), gortho(hw, n, f)).e33 == 2 * ((f - n) * hw));
    assert(gmat_mul(gbias(), gortho(hw, n, f)).e01 == 0);
    assert(gmat_mul(gbias(), gortho(hw, n, f)).e02 == 0);
    assert(gmat_mul(gbias(), gortho(hw, n, f)).e10 == 0);
    assert(gmat_mul(gbias(), gortho(hw, n, f)).e12 == 0);
    assert(gmat_mul(gbias(), gortho(hw, n, f)).e20 == 0);
    assert(gmat_mul(gbias(), gortho(hw, n, f)).e21 == 0);
    assert(gmat_mul(gbias(), gortho(hw, n, f)).e30 == 0);
    assert(gmat_mul(gbias(), gortho(hw, n, f)).e31 == 0);
    assert(gmat_mul(gbias(), gortho(hw, n, f)).e32 == 0);
    // The lookup, row by row.
    assert(gmat_mul(gbias(), gortho(hw, n, f)).e00 * px == (f - n) * px);
    assert(gmat_mul(gbias(), gortho(hw, n, f)).e01 * py == 0);
    assert(gmat_mul(gbias(), gortho(hw, n, f)).e02 * pz == 0);
    assert(gmat_mul(gbias(), gortho(hw, n, f)).e03 * pd == ((f - n) * hw) * pd);
    assert(gmat_mul(gbias(), gortho(hw, n, f)).e10 * px == 0);
    assert(gmat_mul(gbias(), gortho(hw, n, f)).e11 * py == (f - n) * py);
    assert(gmat_mul(gbias(), gortho(hw, n, f)).e12 * pz == 0);
    assert(gmat_mul(gbias(), gortho(hw, n, f)).e13 * pd == ((f - n) * hw) * pd);
    assert(gmat_mul(gbias(), gortho(hw, n, f)).e20 * px == 0);
    assert(gmat_mul(gbias(), gortho(hw, n, f)).e21 * py == 0);
    assert(gmat_mul(gbias(), gortho(hw, n, f)).e22 * pz == (-(2 * hw)) * pz);
    assert(gmat_mul(gbias(), gortho(hw, n, f)).e23 * pd == (-(2 * (n * hw))) * pd);
    assert(gmat_mul(gbias(), gortho(hw, n, f)).e30 * px == 0);
    assert(gmat_mul(gbias(), gortho(hw, n, f)).e31 * py == 0);
    assert(gmat_mul(gbias(), gortho(hw, n, f)).e32 * pz == 0);
    assert(gmat_mul(gbias(), gortho(hw, n, f)).e33 * pd == (2 * ((f - n) * hw)) * pd);
    crate::matrix::lemma_neg_mul(2 * hw, pz);
    crate::matrix::lemma_neg_mul(2 * (n * hw), pd);
    // The homogeneous coordinate is positive.
    crate::rational::lemma_pos_mul_pos(f - n, hw);
    crate::rational::lemma_pos_mul_pos(2 * ((f - n) * hw), pd);
    assert(gmat_apply(gmat_mul(gbias(), gortho(hw, n, f)), px, py, pz, pd).w == (2 * ((f - n)
        * hw)) * pd);
    assert(gmat_apply(gmat_mul(gbias(), gortho(hw, n, f)), px, py, pz, pd).w > 0);
    crate::matrix::lemma_mul_assoc(2, (f - n) * hw, pd);
    crate::matrix::lemma_mul_assoc(f - n, hw, pd);
    // Lateral axes: the distance to each box face, scaled by the
    // positive depth span, stays on the right side of zero.
    crate::matrix::lemma_left_distribute2(f - n, px, hw * pd);
    crate::matrix::lemma_left_distribute2(f - n, py, hw * pd);
    crate::matrix::lemma_mul_signs(f - n, px + hw * pd);
    crate::matrix::lemma_mul_signs(f - n, py + hw * pd);
    assert(0 <= gmat_apply(gmat_mul(gbias(), gortho(hw, n, f)), px, py, pz, pd).x);
    assert(0 <= gmat_apply(gmat_mul(gbias(), gortho(hw, n, f)), px, py, pz, pd).y);
    crate::matrix::lemma_left_distribute2(f - n, hw * pd, px);
    crate::matrix::lemma_left_distribute2(f - n, hw * pd, py);
    crate::matrix::lemma_mul_signs(f - n, hw * pd - px);
    crate::matrix::lemma_mul_signs(f - n, hw * pd - py);
    assert(gmat_apply(gmat_mul(gbias(), gortho(hw, n, f)), px, py, pz, pd).x <= gmat_apply(
        gmat_mul(gbias(), gortho(hw, n, f)), px, py, pz, pd).w);
    assert(gmat_apply(gmat_mul(gbias(), gortho(hw, n, f)), px, py, pz, pd).y <= gmat_apply(
        gmat_mul(gbias(), gortho(hw, n, f)), px, py, pz, pd).w);
    // Depth axis: the lookup depth is the fragment's distance to the
    // near face over the depth span.
    crate::matrix::lemma_neg_mul(2 * hw, pz);
    crate::matrix::lemma_mul_assoc(2, hw, pz);
    crate::matrix::lemma_neg_mul(2 * (n * hw), pd);
    crate::matrix::lemma_mul_assoc(2, n * hw, pd);
    crate::matrix::lemma_mul_assoc(n, hw, pd);
    crate::matrix::lemma_mul_comm(n, hw);
    crate::matrix::lemma_mul_assoc(hw, n, pd);
    crate::matrix::lemma_left_distribute2(hw, pz, n * pd);
    crate::matrix::lemma_mul_signs(hw, pz + n * pd);
    assert(0 <= gmat_apply(gmat_mul(gbias(), gortho(hw, n, f)), px, py, pz, pd).z);
    crate::matrix::lemma_distribute2(f, n, hw * pd);
    crate::matrix::lemma_mul_assoc(f, hw, pd);
    crate::matrix::lemma_mul_comm(f, hw);
    crate::matrix::lemma_mul_assoc(hw, f, pd);
    crate::matrix::lemma_left_distribute2(hw, pz, f * pd);
    crate::matrix::lemma_mul_signs(hw, pz + f * pd);
    assert(gmat_apply(gmat_mul(gbias(), gortho(hw, n, f)), px, py, pz, pd).z <= gmat_apply(
        gmat_mul(gbias(), gortho(hw, n, f)), px, py, pz, pd).w);
}

} // verus!
