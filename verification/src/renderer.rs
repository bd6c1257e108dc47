//! The per-frame orchestrator.
//!
//! A frame is drawn in three strictly ordered passes — shadow depth,
//! sky, scene — and the ordering is a hard invariant: the scene pass
//! reads the depth target the shadow pass wrote this same frame, and
//! nothing but the call sequence enforces that.  Here the sequence is
//! enforced by contract: each pass requires the phase its predecessor
//! established, so a frame that type-checks against these contracts
//! cannot read a stale shadow target.
//!
//! Every derived value of a pass is pinned to a function of the frame
//! inputs alone: rendering the same inputs twice yields identical
//! matrices, uniforms and shadow contents.

use crate::camera::gperspective;
use crate::camera::gview;
use crate::camera::Camera;
use crate::camera::Projection;
use crate::camera::POSITION_BOUND;
use crate::matrix::gmat_mul;
use crate::matrix::mat_mul;
use crate::matrix::Mat4;
use crate::rational::Rat;
use crate::shadow_render_system::bias_matrix;
use crate::shadow_render_system::gbias;
use crate::shadow_render_system::gdepth_after;
use crate::shadow_render_system::gortho;
use crate::shadow_render_system::samples_valid;
use crate::shadow_render_system::DepthSample;
use crate::shadow_render_system::ShadowRenderSystem;
use crate::sky_render_system::uniforms_match;
use crate::sky_render_system::SkyRenderSystem;
use crate::sky_render_system::SkyUniforms;
use crate::sky_render_system::CAMERA_HEIGHT_BOUND;
use crate::vector::Vec3r;
use vstd::prelude::*;

verus! {

/// Where a frame stands in the fixed pass sequence.
#[derive(Clone, Copy, Debug, PartialEq, Eq, Structural)]
pub enum FramePhase {
    /// The frame target has been acquired; nothing drawn yet.
    Begin,
    /// The shadow depth target holds this frame's depths.
    ShadowsRendered,
    /// The sky has been drawn into the main target.
    SkyRendered,
    /// All passes done; the frame is ready to present.
    SceneRendered,
}

/// One frame in flight: its phase and the light position it is lit by.
#[derive(Clone, Copy, Debug)]
pub struct Frame {
    pub phase: FramePhase,
    pub light_position: Vec3r,
}

/// The values the scene pass derives once per frame and shares across
/// its draws.
#[derive(Clone, Copy, Debug)]
pub struct SceneFrameData {
    /// Camera projection composed with the camera view.
    pub view_proj: Mat4,
    /// Bias matrix composed with the light projection; composing the
    /// light view (normalized from the light basis) on the right gives
    /// the full world-to-shadow-map matrix.
    pub light_matrix: Mat4,
    /// Side length of one shadow-map texel.
    pub texel_size: Rat,
    /// World-space height of the near frustum slice, used to scale the
    /// soft-shadow kernel.
    pub frustum_size: Rat,
}

/// The values the scene pass owes for the given camera, projection and
/// shadow configuration: each field pinned exactly.
pub open spec fn scene_data_matches(
    d: SceneFrameData, c: Camera, p: Projection, hw: int, n: int, f: int, size: int,
) -> bool {
    &&& d.view_proj.view() == gmat_mul(
        gperspective(
            p.focal.num as int, p.focal.den as int, p.near.num as int, p.near.den as int,
            p.far.num as int, p.far.den as int, p.width as int, p.height as int,
        ),
        gview(
            c.yaw.cos as int, c.yaw.sin as int, c.yaw.den as int, c.pitch.cos as int,
            c.pitch.sin as int, c.pitch.den as int, c.position.x as int, c.position.y as int,
            c.position.z as int, c.position.den as int,
        ),
    )
    &&& d.light_matrix.view() == gmat_mul(gbias(), gortho(hw, n, f))
    &&& d.texel_size.num == 1 && d.texel_size.den == size
    &&& d.frustum_size.num == ((2 * p.near.num) * p.focal.den) * p.width
    &&& d.frustum_size.den == (p.near.den * p.focal.num) * p.height
}

/// The renderer: owns the pass subsystems and sequences them.
#[derive(Debug)]
pub struct Renderer {
    pub shadow_render_system: ShadowRenderSystem,
    pub sky_render_system: SkyRenderSystem,
}

impl Renderer {
    /// Both subsystems valid.
    pub open spec fn wf(self) -> bool {
        self.shadow_render_system.wf() && self.sky_render_system.wf()
    }

    /// Assembles the renderer from its validated subsystems.
    pub fn new(shadow_render_system: ShadowRenderSystem, sky_render_system: SkyRenderSystem) -> (r:
        Renderer)
        requires
            shadow_render_system.wf(),
            sky_render_system.wf(),
        ensures
            r.wf(),
            r.shadow_render_system == shadow_render_system,
            r.sky_render_system == sky_render_system,
    {
        Renderer { shadow_render_system, sky_render_system }
    }

    /// Opens a frame lit from `light_position`; nothing is drawn yet.
    pub fn begin_frame(&self, light_position: Vec3r) -> (r: Frame)
        requires
            light_position.wf(),
            light_position.bounded(POSITION_BOUND as int),
        ensures
            r.phase == FramePhase::Begin,
            r.light_position == light_position,
    {
        Frame { phase: FramePhase::Begin, light_position }
    }

    /// The shadow pass: first of the frame.  Clears the depth target
    /// and folds in the scene's rasterized depth samples; afterwards
    /// the target holds exactly this frame's depths.
    pub fn render_shadows(&mut self, frame: &mut Frame, scene_depth: &Vec<DepthSample>)
        requires
            old(self).wf(),
            old(frame).phase == FramePhase::Begin,
            samples_valid(old(self).shadow_render_system.size as int, scene_depth@),
        ensures
            final(self).wf(),
            final(self).sky_render_system == old(self).sky_render_system,
            final(self).shadow_render_system.half_width == old(
                self,
            ).shadow_render_system.half_width,
            final(self).shadow_render_system.near == old(self).shadow_render_system.near,
            final(self).shadow_render_system.far == old(self).shadow_render_system.far,
            final(self).shadow_render_system.size == old(self).shadow_render_system.size,
            final(self).shadow_render_system.kernel == old(self).shadow_render_system.kernel,
            final(self).shadow_render_system.target.data@ == gdepth_after(
                old(self).shadow_render_system.size as int, scene_depth@,
                scene_depth@.len() as int,
            ),
            final(frame).phase == FramePhase::ShadowsRendered,
            final(frame).light_position == old(frame).light_position,
    {
        self.shadow_render_system.render_depth(scene_depth);
        frame.phase = FramePhase::ShadowsRendered;
    }

    /// The sky pass: second of the frame, into the main target.
    /// Derives the scattering uniforms for the two sky draws from the
    /// fixed configuration and the camera height handed in.
    pub fn render_sky(&self, frame: &mut Frame, camera_height: Rat) -> (r: SkyUniforms)
        requires
            self.wf(),
            old(frame).phase == FramePhase::ShadowsRendered,
            camera_height.wf(),
            camera_height.bounded(CAMERA_HEIGHT_BOUND as int),
        ensures
            r.wf(),
            uniforms_match(r, self.sky_render_system, camera_height),
            final(frame).phase == FramePhase::SkyRendered,
            final(frame).light_position == old(frame).light_position,
    {
        let r = self.sky_render_system.derive_uniforms(camera_height);
        frame.phase = FramePhase::SkyRendered;
        r
    }

    /// The scene pass: last of the frame.  Derives the matrices and
    /// constants every mesh draw shares: the camera view-projection,
    /// the biased light matrix for shadow lookups, the shadow texel
    /// size and the near-frustum size scaling the kernel.
    pub fn render_scene(&self, frame: &mut Frame, camera: &Camera, projection: &Projection) -> (r:
        SceneFrameData)
        requires
            self.wf(),
            camera.wf(),
            projection.wf(),
            old(frame).phase == FramePhase::SkyRendered,
        ensures
            scene_data_matches(
                r, *camera, *projection, self.shadow_render_system.half_width as int,
                self.shadow_render_system.near as int, self.shadow_render_system.far as int,
                self.shadow_render_system.size as int,
            ),
            r.view_proj.view().wf(),
            r.light_matrix.view().wf(),
            r.texel_size.wf(),
            r.frustum_size.wf(),
            final(frame).phase == FramePhase::SceneRendered,
            final(frame).light_position == old(frame).light_position,
    {
        let view = camera.calc_view_matrix();
        let proj = projection.calc_projection_matrix();
        let view_proj = mat_mul(&proj, &view);
        let bias = bias_matrix();
        let light_proj = self.shadow_render_system.get_projection_matrix();
        let light_matrix = mat_mul(&bias, &light_proj);
        let texel_size = self.shadow_render_system.texel_size();
        proof {
            crate::matrix::lemma_mul_magnitude_bound(
                2 * (projection.near.num as int), projection.focal.den as int, 2048, 1024);
            crate::matrix::lemma_mul_magnitude_bound(
                (2 * (projection.near.num as int)) * (projection.focal.den as int),
                projection.width as int, 2097152, 32768);
            crate::matrix::lemma_mul_magnitude_bound(
                projection.near.den as int, projection.focal.num as int, 1024, 1024);
            crate::matrix::lemma_mul_magnitude_bound(
                (projection.near.den as int) * (projection.focal.num as int),
                projection.height as int, 1048576, 32768);
            crate::rational::lemma_pos_mul_pos(
                projection.near.den as int, projection.focal.num as int);
            crate::rational::lemma_pos_mul_pos(
                (projection.near.den as int) * (projection.focal.num as int),
                projection.height as int);
        }
        let frustum_size = Rat {
            num: ((2 * projection.near.num) * projection.focal.den) * (projection.width as i64),
            den: (projection.near.den * projection.focal.num) * (projection.height as i64),
        };
        frame.phase = FramePhase::SceneRendered;
        SceneFrameData { view_proj, light_matrix, texel_size, frustum_size }
    }

    /// Closes a completed frame: only a frame that went through all
    /// three passes in order may be handed to the presentation layer.
    pub fn end_frame(&self, frame: Frame) -> (r: Vec3r)
        requires
            frame.phase == FramePhase::SceneRendered,
        ensures
            r == frame.light_position,
    {
        frame.light_position
    }
}

/// Rendering is idempotent across frames: two scene passes driven by
/// the same camera, projection and shadow configuration derive
/// identical matrices and constants, because every field is pinned to
/// the inputs alone and no pass keeps hidden mutable state.
pub proof fn lemma_frame_derivation_deterministic(
    d1: SceneFrameData, d2: SceneFrameData, c: Camera, p: Projection, hw: int, n: int, f: int,
    size: int,
)
    requires
        scene_data_matches(d1, c, p, hw, n, f, size),
        scene_data_matches(d2, c, p, hw, n, f, size),
    ensures
        d1.view_proj.view() == d2.view_proj.view(),
        d1.light_matrix.view() == d2.light_matrix.view(),
        d1.texel_size == d2.texel_size,
        d1.frustum_size == d2.frustum_size,
{
}

/// The same determinism for the shadow pass: two depth renders of the
/// same sample stream leave identical targets.
pub proof fn lemma_shadow_render_deterministic(
    t1: Seq<u32>, t2: Seq<u32>, size: int, samples: Seq<DepthSample>,
)
    requires
        t1 == gdepth_after(size, samples, samples.len() as int),
        t2 == gdepth_after(size, samples, samples.len() as int),
    ensures
        t1 == t2,
{
}

} // verus!
