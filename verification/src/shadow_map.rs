//! The shadow depth target and the soft-shadow sampling kernel.
//!
//! The depth target models the square depth texture the shadow pass
//! renders into: a grid of fixed-point depths in `[0, 1]`, where
//! `DEPTH_ONE` stands for the far plane the target is cleared to.
//! Writing a sample keeps the smaller depth, exactly as the
//! less-than depth test with depth writes enabled does.
//!
//! The kernel holds the fixed sampling offsets used to soften shadow
//! edges: each tap shifts the lookup by a fraction of one texel, the
//! fraction of taps that pass the depth comparison is the attenuation.

use crate::rational::Rat;
use vstd::prelude::*;

verus! {

/// Fixed-point one for depths and for texture coordinates: 65536 stands
/// for depth 1.0 (the far plane) and for texture coordinate 1.0.
pub const DEPTH_ONE: u32 = 65536;

/// Fixed-point one for texture coordinates and kernel offsets.
pub const UV_ONE: i64 = 65536;

/// Largest side length of the square depth target.
pub const MAX_SHADOW_TARGET: u32 = 16384;

/// Largest number of kernel taps.
pub const MAX_KERNEL_TAPS: usize = 65536;

/// A square depth target: `size * size` fixed-point depths.
#[derive(Debug)]
pub struct DepthMap {
    pub data: Vec<u32>,
    pub size: u32,
}

impl DepthMap {
    /// Valid target: non-degenerate bounded size, fully allocated, all
    /// depths within `[0, 1]`.
    pub open spec fn wf(self) -> bool {
        &&& 1 <= self.size <= MAX_SHADOW_TARGET
        &&& self.data@.len() == self.size * self.size
        &&& forall|i: int| 0 <= i < self.data@.len() ==> self.data@[i] <= DEPTH_ONE
    }

    /// Index of the texel at column `x`, row `y`.
    pub open spec fn index_of(self, x: int, y: int) -> int {
        y * self.size + x
    }

    /// A target cleared to the far plane; rejects only degenerate or
    /// over-bound sizes.
    pub fn new(size: u32) -> (r: Option<DepthMap>)
        ensures
            r is Some <==> 1 <= size <= MAX_SHADOW_TARGET,
            r is Some ==> r.unwrap().wf() && r.unwrap().size == size,
            r is Some ==> forall|i: int|
                0 <= i < r.unwrap().data@.len() ==> r.unwrap().data@[i] == DEPTH_ONE,
    {
        if 1 <= size && size <= MAX_SHADOW_TARGET {
            proof {
                crate::matrix::lemma_mul_magnitude_bound(
                    size as int, size as int, MAX_SHADOW_TARGET as int, MAX_SHADOW_TARGET as int);
            }
            let n: usize = (size as usize) * (size as usize);
            let mut data: Vec<u32> = Vec::new();
            let mut i: usize = 0;
            while i < n
                invariant
                    i <= n,
                    data@.len() == i,
                    forall|j: int| 0 <= j < i ==> data@[j] == DEPTH_ONE,
                decreases n - i,
            {
                data.push(DEPTH_ONE);
                i = i + 1;
            }
            Some(DepthMap { data, size })
        } else {
            None
        }
    }

    /// Clears every texel back to the far plane.
    pub fn clear(&mut self)
        requires
            old(self).wf(),
        ensures
            final(self).wf(),
            final(self).size == old(self).size,
            final(self).data@.len() == old(self).data@.len(),
            forall|i: int| 0 <= i < final(self).data@.len() ==> final(self).data@[i] == DEPTH_ONE,
    {
        let n: usize = self.data.len();
        let mut i: usize = 0;
        while i < n
            invariant
                i <= n,
                self.data@.len() == n,
                self.size == old(self).size,
                n == old(self).data@.len(),
                forall|j: int| 0 <= j < i ==> self.data@[j] == DEPTH_ONE,
                forall|j: int| i <= j < n ==> self.data@[j] == old(self).data@[j],
            decreases n - i,
        {
            self.data.set(i, DEPTH_ONE);
            i = i + 1;
        }
    }

    /// Writes one depth sample with the less-than depth test: the texel
    /// keeps the smaller of its depth and the incoming one.
    pub fn min_write(&mut self, x: u32, y: u32, depth: u32)
        requires
            old(self).wf(),
            x < old(self).size,
            y < old(self).size,
            depth <= DEPTH_ONE,
        ensures
            final(self).wf(),
            final(self).size == old(self).size,
            final(self).data@ == old(self).data@.update(
                old(self).index_of(x as int, y as int),
                if depth < old(self).data@[old(self).index_of(x as int, y as int)] {
                    depth
                } else {
                    old(self).data@[old(self).index_of(x as int, y as int)]
                },
            ),
    {
        proof {
            crate::matrix::lemma_mul_magnitude_bound(
                y as int, self.size as int, MAX_SHADOW_TARGET as int, MAX_SHADOW_TARGET as int);
            lemma_row_major_index_in_range(x as int, y as int, self.size as int);
        }
        let idx: usize = (y as usize) * (self.size as usize) + (x as usize);
        let stored: u32 = self.data[idx];
        if depth < stored {
            self.data.set(idx, depth);
        } else {
            proof {
                assert(self.data@ =~= old(self).data@.update(
                    old(self).index_of(x as int, y as int),
                    old(self).data@[old(self).index_of(x as int, y as int)],
                ));
            }
        }
    }

    /// Reads one texel.
    pub fn depth_at(&self, x: u32, y: u32) -> (r: u32)
        requires
            self.wf(),
            x < self.size,
            y < self.size,
        ensures
            r == self.data@[self.index_of(x as int, y as int)],
            r <= DEPTH_ONE,
    {
        proof {
            crate::matrix::lemma_mul_magnitude_bound(
                y as int, self.size as int, MAX_SHADOW_TARGET as int, MAX_SHADOW_TARGET as int);
            lemma_row_major_index_in_range(x as int, y as int, self.size as int);
        }
        self.data[(y as usize) * (self.size as usize) + (x as usize)]
    }
}

/// A row-major index of an in-bounds texel lies within the allocation.
pub proof fn lemma_row_major_index_in_range(x: int, y: int, size: int)
    by (nonlinear_arith)
    requires
        0 <= x < size,
        0 <= y < size,
    ensures
        0 <= y * size + x < size * size,
{
}

/// The soft-shadow sampling kernel: fixed offsets, each in `[0, 1]`
/// texels along each axis.
#[derive(Debug)]
pub struct PoissonKernel {
    pub offsets: Vec<(i64, i64)>,
}

impl PoissonKernel {
    /// Valid kernel: at least one tap, bounded count, offsets within one
    /// texel.
    pub open spec fn wf(self) -> bool {
        &&& 1 <= self.offsets@.len() <= MAX_KERNEL_TAPS
        &&& forall|i: int|
            0 <= i < self.offsets@.len() ==> 0 <= #[trigger] self.offsets@[i].0 <= UV_ONE
                && 0 <= self.offsets@[i].1 <= UV_ONE
    }

    /// Accepts exactly the valid offset lists.
    pub fn from_points(points: Vec<(i64, i64)>) -> (r: Option<PoissonKernel>)
        ensures
            r is Some <==> (PoissonKernel { offsets: points }).wf(),
            r is Some ==> r.unwrap() == (PoissonKernel { offsets: points }),
    {
        if points.len() < 1 || points.len() > MAX_KERNEL_TAPS {
            return None;
        }
        let n: usize = points.len();
        let mut i: usize = 0;
        while i < n
            invariant
                i <= n,
                n == points@.len(),
                forall|j: int|
                    0 <= j < i ==> 0 <= #[trigger] points@[j].0 <= UV_ONE && 0 <= points@[j].1
                        <= UV_ONE,
            decreases n - i,
        {
            let (ox, oy) = points[i];
            if ox < 0 || ox > UV_ONE || oy < 0 || oy > UV_ONE {
                return None;
            }
            i = i + 1;
        }
        Some(PoissonKernel { offsets: points })
    }

    /// Number of taps.
    pub fn len(&self) -> (r: usize)
        ensures
            r == self.offsets@.len(),
    {
        self.offsets.len()
    }
}

/// The texel a texture coordinate falls into after shifting by a kernel
/// offset, clamped to the edge of the target.
pub open spec fn tap_texel(coord: int, size: int, offset: int) -> int {
    let t = (coord * size + offset) / (UV_ONE as int);
    if t > size - 1 {
        size - 1
    } else {
        t
    }
}

/// Whether one tap passes the depth comparison: the fragment is lit at
/// this tap when its depth is at most the stored depth plus the bias.
pub open spec fn tap_is_lit(
    data: Seq<u32>, size: int, u: int, v: int, ox: int, oy: int, depth: int, bias: int,
) -> bool {
    depth <= data[tap_texel(v, size, oy) * size + tap_texel(u, size, ox)] + bias
}

/// Number of lit taps among the first `n` kernel offsets.
pub open spec fn lit_count(
    data: Seq<u32>, size: int, offsets: Seq<(i64, i64)>, u: int, v: int, depth: int, bias: int,
    n: int,
) -> int
    decreases n,
{
    if n <= 0 {
        0
    } else {
        lit_count(data, size, offsets, u, v, depth, bias, n - 1) + if tap_is_lit(
            data,
            size,
            u,
            v,
            offsets[n - 1].0 as int,
            offsets[n - 1].1 as int,
            depth,
            bias,
        ) {
            1int
        } else {
            0int
        }
    }
}

/// Percentage-closer soft-shadow attenuation at one shadow-map lookup.
///
/// `u`, `v` and `depth` are the fixed-point shadow-map coordinates of
/// the fragment; the result is the fraction of kernel taps whose depth
/// comparison passes: `0` is fully shadowed, `1` fully lit.
pub fn shadow_attenuation(
    map: &DepthMap, kernel: &PoissonKernel, u: i64, v: i64, depth: u32, bias: u32,
) -> (r: Rat)
    requires
        map.wf(),
        kernel.wf(),
        0 <= u <= UV_ONE,
        0 <= v <= UV_ONE,
        depth <= DEPTH_ONE,
        bias <= DEPTH_ONE,
    ensures
        r.wf(),
        r.den == kernel.offsets@.len(),
        r.num == lit_count(
            map.data@, map.size as int, kernel.offsets@, u as int, v as int, depth as int,
            bias as int, kernel.offsets@.len() as int,
        ),
        0 <= r.num <= r.den,
{
    let n: usize = kernel.offsets.len();
    let mut lit: usize = 0;
    let mut i: usize = 0;
    while i < n
        invariant
            i <= n,
            n == kernel.offsets@.len(),
            map.wf(),
            kernel.wf(),
            0 <= u <= UV_ONE,
            0 <= v <= UV_ONE,
            depth <= DEPTH_ONE,
            bias <= DEPTH_ONE,
            lit <= i,
            lit == lit_count(
                map.data@, map.size as int, kernel.offsets@, u as int, v as int, depth as int,
                bias as int, i as int,
            ),
        decreases n - i,
    {
        let (ox, oy) = kernel.offsets[i];
        let tu: u32 = tap_texel_exec(u, map.size, ox);
        let tv: u32 = tap_texel_exec(v, map.size, oy);
        proof {
            crate::matrix::lemma_mul_magnitude_bound(
                tv as int, map.size as int, MAX_SHADOW_TARGET as int, MAX_SHADOW_TARGET as int);
            lemma_row_major_index_in_range(tu as int, tv as int, map.size as int);
        }
        let stored: u32 = map.data[(tv as usize) * (map.size as usize) + (tu as usize)];
        if depth <= stored + bias {
            lit = lit + 1;
        }
        i = i + 1;
    }
    Rat { num: lit as i64, den: n as i64 }
}

/// The texel lookup of one tap, clamped to the target edge.
fn tap_texel_exec(coord: i64, size: u32, offset: i64) -> (r: u32)
    requires
        0 <= coord <= UV_ONE,
        0 <= offset <= UV_ONE,
        1 <= size <= MAX_SHADOW_TARGET,
    ensures
        r as int == tap_texel(coord as int, size as int, offset as int),
        r < size,
{
    proof {
        crate::matrix::lemma_mul_magnitude_bound(
            coord as int, size as int, UV_ONE as int, MAX_SHADOW_TARGET as int);
        vstd::arithmetic::div_mod::lemma_div_nonincreasing(
            (coord * size + offset) as int, UV_ONE as int);
        vstd::arithmetic::div_mod::lemma_div_is_ordered(
            0, (coord * size + offset) as int, UV_ONE as int);
    }
    let scaled: i64 = coord * (size as i64) + offset;
    let t: i64 = scaled / UV_ONE;
    if t > (size as i64) - 1 {
        size - 1
    } else {
        t as u32
    }
}

/// Two attenuation results for the same frame inputs are the same
/// fraction: the sampling logic has no hidden state.
pub proof fn lemma_attenuation_deterministic(
    r1: Rat, r2: Rat, data: Seq<u32>, size: int, offsets: Seq<(i64, i64)>, u: int, v: int,
    depth: int, bias: int, n: int,
)
    requires
        r1.num == lit_count(data, size, offsets, u, v, depth, bias, n),
        r1.den == n,
        r2.num == lit_count(data, size, offsets, u, v, depth, bias, n),
        r2.den == n,
    ensures
        r1 == r2,
{
}

} // verus!
