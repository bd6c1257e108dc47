use rendercore::camera::{Angle, Camera, Projection};
use rendercore::model::Model;
use rendercore::rational::Rat;
use rendercore::renderer::{FramePhase, Renderer};
use rendercore::shadow_render_system::{DepthSample, ShadowRenderSystem};
use rendercore::sky_render_system::SkyRenderSystem;
use rendercore::vector::Vec3r;

fn test_renderer() -> Renderer {
    let shadow = ShadowRenderSystem::new(
        8,
        20,
        -10,
        100,
        vec![(0, 0), (32768, 32768), (65536, 65536)],
    )
    .unwrap();
    Renderer::new(shadow, SkyRenderSystem::standard())
}

fn test_camera() -> Camera {
    Camera::new(
        Vec3r::new(-10, 7, 1, 1),
        Angle::new(3, 4, 5).unwrap(),
        Angle::new(4, -3, 5).unwrap(),
    )
    .unwrap()
}

fn test_projection() -> Projection {
    Projection::new(1920, 1200, Rat::new(1, 1), Rat::new(1, 10), Rat::new(100, 1)).unwrap()
}

#[test]
fn frame_walks_the_pass_sequence_in_order() {
    let mut renderer = test_renderer();
    let light = Vec3r::new(1, 50, 0, 1);
    let mut frame = renderer.begin_frame(light);
    assert!(matches!(frame.phase, FramePhase::Begin));
    let samples = vec![DepthSample { x: 3, y: 3, depth: 20000 }];
    renderer.render_shadows(&mut frame, &samples);
    assert!(matches!(frame.phase, FramePhase::ShadowsRendered));
    let sky = renderer.render_sky(&mut frame, Rat::new(207, 100));
    assert!(sky.scale.den > 0);
    assert!(matches!(frame.phase, FramePhase::SkyRendered));
    let camera = test_camera();
    let projection = test_projection();
    let scene = renderer.render_scene(&mut frame, &camera, &projection);
    assert!(matches!(frame.phase, FramePhase::SceneRendered));
    assert!(scene.view_proj.den > 0);
    let returned_light = renderer.end_frame(frame);
    assert_eq!(returned_light.x, 1);
    assert_eq!(returned_light.y, 50);
}

#[test]
fn rendering_the_same_frame_inputs_twice_is_identical() {
    let camera = test_camera();
    let projection = test_projection();
    let light = Vec3r::new(1, 50, 0, 1);
    let samples = vec![
        DepthSample { x: 2, y: 2, depth: 30000 },
        DepthSample { x: 5, y: 5, depth: 10000 },
    ];

    let run = |renderer: &mut Renderer| {
        let mut frame = renderer.begin_frame(light);
        renderer.render_shadows(&mut frame, &samples);
        let sky = renderer.render_sky(&mut frame, Rat::new(3, 2));
        let scene = renderer.render_scene(&mut frame, &camera, &projection);
        (sky, scene)
    };

    let mut renderer = test_renderer();
    let (sky1, scene1) = run(&mut renderer);
    let map1: Vec<u32> = renderer.shadow_render_system.target.data.clone();
    let (sky2, scene2) = run(&mut renderer);
    let map2: Vec<u32> = renderer.shadow_render_system.target.data.clone();

    // Identical shadow targets.
    assert_eq!(map1, map2);
    // Identical matrices, uniform values and constants.
    assert_eq!(scene1.view_proj.e00, scene2.view_proj.e00);
    assert_eq!(scene1.view_proj.e03, scene2.view_proj.e03);
    assert_eq!(scene1.view_proj.e23, scene2.view_proj.e23);
    assert_eq!(scene1.view_proj.den, scene2.view_proj.den);
    assert_eq!(scene1.light_matrix.e00, scene2.light_matrix.e00);
    assert_eq!(scene1.light_matrix.den, scene2.light_matrix.den);
    assert_eq!(scene1.texel_size.num, scene2.texel_size.num);
    assert_eq!(scene1.texel_size.den, scene2.texel_size.den);
    assert_eq!(scene1.frustum_size.num, scene2.frustum_size.num);
    assert_eq!(scene1.frustum_size.den, scene2.frustum_size.den);
    assert_eq!(sky1.scale.num, sky2.scale.num);
    assert_eq!(sky1.camera_height2.num, sky2.camera_height2.num);
}

#[test]
fn scene_pass_constants_are_exact() {
    let mut renderer = test_renderer();
    let mut frame = renderer.begin_frame(Vec3r::new(1, 50, 0, 1));
    renderer.render_shadows(&mut frame, &Vec::new());
    renderer.render_sky(&mut frame, Rat::new(1, 1));
    let camera = test_camera();
    let projection = test_projection();
    let scene = renderer.render_scene(&mut frame, &camera, &projection);
    // One texel of the 8-texel-wide target.
    assert_eq!(scene.texel_size.num, 1);
    assert_eq!(scene.texel_size.den, 8);
    // frustum = 2 * near * (1 / focal) * aspect == 2 * (1/10) * (1920/1200),
    // as the unreduced product of the configured parts.
    assert_eq!(
        scene.frustum_size.num * (10 * 1 * 1200),
        scene.frustum_size.den * (2 * 1 * 1920)
    );
}

#[test]
fn model_transform_composes_translation_and_scale() {
    let mut model = Model::new();
    model.set_position(Vec3r::new(0, 1, 0, 1));
    model.set_scale(Rat::new(1, 10));
    let m = model.get_transform();
    // Diagonal: scale 1/10; translation column: (0, 1, 0).
    assert_eq!(m.e00 * 10, m.den);
    assert_eq!(m.e11 * 10, m.den);
    assert_eq!(m.e22 * 10, m.den);
    assert_eq!(m.e03, 0);
    assert_eq!(m.e13, m.den);
    assert_eq!(m.e23, 0);
    assert_eq!(m.e33, m.den);
}

#[test]
fn vertex_normals_accumulate_area_weighted_face_normals() {
    // A flat square of two triangles sharing the edge (1, 2); both
    // faces have the area-weighted normal (0, -1, 0), so shared
    // vertices accumulate twice the normal of unshared ones.
    let positions: Vec<(i64, i64, i64)> = vec![(0, 0, 0), (1, 0, 0), (0, 0, 1), (1, 0, 1)];
    let faces: Vec<(u32, u32, u32)> = vec![(0, 1, 2), (1, 3, 2)];
    let normals = rendercore::model::accumulate_vertex_normals(&positions, &faces);
    assert_eq!(normals.len(), 4);
    assert_eq!((normals[0].x, normals[0].y, normals[0].z), (0, -1, 0));
    assert_eq!((normals[1].x, normals[1].y, normals[1].z), (0, -2, 0));
    assert_eq!((normals[2].x, normals[2].y, normals[2].z), (0, -2, 0));
    assert_eq!((normals[3].x, normals[3].y, normals[3].z), (0, -1, 0));
}

#[test]
fn degenerate_face_contributes_no_normal() {
    let positions: Vec<(i64, i64, i64)> = vec![(0, 0, 0), (2, 0, 0), (4, 0, 0)];
    let faces: Vec<(u32, u32, u32)> = vec![(0, 1, 2)];
    let normals = rendercore::model::accumulate_vertex_normals(&positions, &faces);
    for n in &normals {
        assert_eq!((n.x, n.y, n.z), (0, 0, 0));
    }
}
