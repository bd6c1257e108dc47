use rendercore::matrix::{mat_apply_point, mat_mul};
use rendercore::shadow_map::{shadow_attenuation, DepthMap, PoissonKernel, DEPTH_ONE};
use rendercore::shadow_render_system::{bias_matrix, DepthSample, ShadowRenderSystem};

fn small_kernel() -> Vec<(i64, i64)> {
    // A handful of taps spread over one texel, all within [0, 1].
    vec![(0, 0), (16384, 49152), (32768, 32768), (49152, 16384), (65536, 65536)]
}

fn test_system(size: u32) -> ShadowRenderSystem {
    ShadowRenderSystem::new(size, 20, -10, 100, small_kernel()).unwrap()
}

#[test]
fn system_rejects_bad_bounds() {
    assert!(ShadowRenderSystem::new(8, 0, -10, 100, small_kernel()).is_none());
    assert!(ShadowRenderSystem::new(8, 20, 100, -10, small_kernel()).is_none());
    assert!(ShadowRenderSystem::new(8, 20, 5, 5, small_kernel()).is_none());
    assert!(ShadowRenderSystem::new(0, 20, -10, 100, small_kernel()).is_none());
}

#[test]
fn kernel_rejects_offsets_outside_one_texel() {
    assert!(PoissonKernel::from_points(vec![(0, 0), (65537, 0)]).is_none());
    assert!(PoissonKernel::from_points(vec![(-1, 0)]).is_none());
    assert!(PoissonKernel::from_points(vec![]).is_none());
    assert!(PoissonKernel::from_points(small_kernel()).is_some());
}

#[test]
fn depth_map_clears_to_far_plane() {
    let map = DepthMap::new(4).unwrap();
    for y in 0..4 {
        for x in 0..4 {
            assert_eq!(map.depth_at(x, y), DEPTH_ONE);
        }
    }
    assert!(DepthMap::new(0).is_none());
}

#[test]
fn depth_map_write_keeps_the_smaller_depth() {
    let mut map = DepthMap::new(4).unwrap();
    map.min_write(1, 2, 30000);
    assert_eq!(map.depth_at(1, 2), 30000);
    // A farther write does not overwrite a nearer one.
    map.min_write(1, 2, 50000);
    assert_eq!(map.depth_at(1, 2), 30000);
    // A nearer write does.
    map.min_write(1, 2, 10000);
    assert_eq!(map.depth_at(1, 2), 10000);
    // Other texels untouched.
    assert_eq!(map.depth_at(2, 1), DEPTH_ONE);
}

#[test]
fn light_view_basis_is_orthogonal_for_a_concrete_light() {
    let sys = test_system(8);
    let light = rendercore::vector::Vec3r::new(3, 50, 4, 1);
    let basis = sys.get_view_basis(&light);
    let f = basis.forward;
    let s = basis.side;
    let u = basis.up;
    assert_eq!(f.x * s.x + f.y * s.y + f.z * s.z, 0);
    assert_eq!(s.x * u.x + s.y * u.y + s.z * u.z, 0);
    assert_eq!(f.x * u.x + f.y * u.y + f.z * u.z, 0);
    // |up|^2 == |side|^2 * |forward|^2: unit after normalization.
    let ss = s.x * s.x + s.y * s.y + s.z * s.z;
    let ff = f.x * f.x + f.y * f.y + f.z * f.z;
    let uu = u.x * u.x + u.y * u.y + u.z * u.z;
    assert!(ss > 0);
    assert!(ff > 0);
    assert_eq!(uu, ss * ff);
}

#[test]
fn light_view_basis_degenerates_on_the_up_axis() {
    let sys = test_system(8);
    let light = rendercore::vector::Vec3r::new(0, 50, 0, 1);
    let basis = sys.get_view_basis(&light);
    let s = basis.side;
    assert_eq!(s.x * s.x + s.y * s.y + s.z * s.z, 0);
}

#[test]
fn bias_times_light_projection_maps_box_corners_into_unit_cube() {
    let sys = test_system(8);
    let light_proj = sys.get_projection_matrix();
    let bias = bias_matrix();
    let bo = mat_mul(&bias, &light_proj);
    // The visible box in light view space: [-20, 20] laterally,
    // [-far, -near] = [-100, 10] in depth.
    let corners = [
        (-20, -20, -100),
        (-20, -20, 10),
        (-20, 20, -100),
        (-20, 20, 10),
        (20, -20, -100),
        (20, -20, 10),
        (20, 20, -100),
        (20, 20, 10),
    ];
    for (x, y, z) in corners {
        let q = mat_apply_point(&bo, x, y, z, 1);
        assert!(q.w > 0);
        assert!(0 <= q.x && q.x <= q.w);
        assert!(0 <= q.y && q.y <= q.w);
        assert!(0 <= q.z && q.z <= q.w);
    }
    // Exact edge values: the near face maps to depth zero, the far face
    // to depth one; the +x face to u == 1.
    let near_face = mat_apply_point(&bo, 0, 0, 10, 1);
    assert_eq!(near_face.z, 0);
    let far_face = mat_apply_point(&bo, 0, 0, -100, 1);
    assert_eq!(far_face.z, far_face.w);
    let right_face = mat_apply_point(&bo, 20, 0, 0, 1);
    assert_eq!(right_face.x, right_face.w);
    // A point outside the box lands outside the unit square.
    let outside = mat_apply_point(&bo, 40, 0, 0, 1);
    assert!(outside.x > outside.w);
}

#[test]
fn shadow_scenario_cube_over_ground() {
    // A flat ground plane at depth 0.9 fills the whole target; a cube
    // whose top is at depth 0.3 covers texels [2, 6) x [2, 6) of the
    // 8 x 8 map.  The light looks straight down.
    let ground: u32 = 58982;
    let cube_top: u32 = 19660;
    let bias: u32 = 100;
    let mut sys = test_system(8);
    let mut samples: Vec<DepthSample> = Vec::new();
    for y in 0..8u32 {
        for x in 0..8u32 {
            samples.push(DepthSample { x, y, depth: ground });
        }
    }
    for y in 2..6u32 {
        for x in 2..6u32 {
            samples.push(DepthSample { x, y, depth: cube_top });
        }
    }
    sys.render_depth(&samples);
    let kernel = PoissonKernel::from_points(small_kernel()).unwrap();

    // A ground fragment directly beneath the cube: its shadow-map depth
    // is the ground depth, but the map stores the cube top there, so
    // every tap is occluded: attenuation == 0.
    let under_cube_uv: i64 = 3 * 65536 / 8;  // texel 3; taps stay within [3, 4]
    let a = shadow_attenuation(sys.get_shadow_target(), &kernel, under_cube_uv, under_cube_uv, ground, bias);
    assert_eq!(a.num, 0);
    assert_eq!(a.den, 5);

    // A ground fragment outside the cube's footprint: the map stores the
    // ground depth itself, so every tap passes: attenuation == 1.
    let open_uv: i64 = 6 * 65536 / 8;  // texel 6; taps stay within [6, 7]
    let b = shadow_attenuation(sys.get_shadow_target(), &kernel, open_uv, open_uv, ground, bias);
    assert_eq!(b.num, 5);
    assert_eq!(b.den, 5);
}

#[test]
fn shadow_attenuation_is_deterministic() {
    let mut sys = test_system(8);
    let samples = vec![
        DepthSample { x: 1, y: 1, depth: 20000 },
        DepthSample { x: 2, y: 2, depth: 40000 },
    ];
    sys.render_depth(&samples);
    let kernel = PoissonKernel::from_points(small_kernel()).unwrap();
    let a = shadow_attenuation(sys.get_shadow_target(), &kernel, 12000, 13000, 30000, 50);
    let b = shadow_attenuation(sys.get_shadow_target(), &kernel, 12000, 13000, 30000, 50);
    assert_eq!(a.num, b.num);
    assert_eq!(a.den, b.den);
}

#[test]
fn render_depth_keeps_the_nearest_sample_per_texel() {
    let mut sys = test_system(4);
    let samples = vec![
        DepthSample { x: 1, y: 1, depth: 50000 },
        DepthSample { x: 1, y: 1, depth: 20000 },
        DepthSample { x: 1, y: 1, depth: 30000 },
    ];
    sys.render_depth(&samples);
    assert_eq!(sys.get_shadow_target().depth_at(1, 1), 20000);
    assert_eq!(sys.get_shadow_target().depth_at(0, 0), DEPTH_ONE);
    // Rendering again from scratch clears the previous frame's depths.
    let fewer = vec![DepthSample { x: 2, y: 2, depth: 10000 }];
    sys.render_depth(&fewer);
    assert_eq!(sys.get_shadow_target().depth_at(1, 1), DEPTH_ONE);
    assert_eq!(sys.get_shadow_target().depth_at(2, 2), 10000);
}
