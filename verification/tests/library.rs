use webgpu_worker::context::scope_name_or_unknown;
use webgpu_worker::cube::{build_cube, CubeVertex, Vec3i, INDEX_COUNT, VERTEX_COUNT};
use webgpu_worker::frame_stats::FrameCounter;
use webgpu_worker::surface::{
    first_non_srgb_index, frame_action, surface_extent, surface_format_index, FrameAction,
    SurfaceStatus,
};

fn v(x: i8, y: i8, z: i8) -> Vec3i {
    Vec3i { x, y, z }
}

fn dot(a: Vec3i, b: Vec3i) -> i32 {
    a.x as i32 * b.x as i32 + a.y as i32 * b.y as i32 + a.z as i32 * b.z as i32
}

#[test]
fn cube_has_24_vertices_and_36_indices() {
    let (vertices, indices) = build_cube();
    assert_eq!(vertices.len(), 24);
    assert_eq!(indices.len(), 36);
    assert_eq!(VERTEX_COUNT, 24);
    assert_eq!(INDEX_COUNT, 36);
}

#[test]
fn cube_first_face_is_plus_x() {
    let (vertices, indices) = build_cube();
    assert_eq!(
        vertices[0],
        CubeVertex { corner: v(1, -1, -1), normal: v(1, 0, 0) }
    );
    assert_eq!(
        vertices[2],
        CubeVertex { corner: v(1, 1, 1), normal: v(1, 0, 0) }
    );
    assert_eq!(&indices[0..6], &[0, 1, 2, 0, 2, 3]);
}

#[test]
fn cube_last_face_is_minus_z() {
    let (vertices, indices) = build_cube();
    assert_eq!(
        vertices[21],
        CubeVertex { corner: v(-1, -1, -1), normal: v(0, 0, -1) }
    );
    assert_eq!(&indices[30..36], &[20, 21, 22, 20, 22, 23]);
}

#[test]
fn cube_normals_point_outward() {
    let (vertices, _) = build_cube();
    for vertex in &vertices {
        assert_eq!(dot(vertex.corner, vertex.normal), 1);
    }
}

#[test]
fn cube_indices_stay_on_their_face() {
    let (vertices, indices) = build_cube();
    for (j, &index) in indices.iter().enumerate() {
        assert!((index as usize) < vertices.len());
        assert_eq!(index as usize / 4, j / 6);
    }
}

#[test]
fn cube_every_vertex_is_indexed() {
    let (vertices, indices) = build_cube();
    for i in 0..vertices.len() {
        assert!(indices.contains(&(i as u32)));
    }
}

#[test]
fn extent_of_empty_canvas_is_one_pixel() {
    assert_eq!(surface_extent(0, 0), (1, 1));
    assert_eq!(surface_extent(0, 480), (1, 480));
    assert_eq!(surface_extent(640, 480), (640, 480));
}

#[test]
fn first_non_srgb_is_chosen() {
    assert_eq!(first_non_srgb_index(&vec![true, true, false, false]), 2);
    assert_eq!(first_non_srgb_index(&vec![false]), 0);
}

#[test]
fn all_srgb_falls_back_to_first() {
    assert_eq!(first_non_srgb_index(&vec![true, true, true]), 0);
}

#[test]
fn surface_format_skips_srgb_formats() {
    let formats = vec![
        wgpu::TextureFormat::Bgra8UnormSrgb,
        wgpu::TextureFormat::Rgba8UnormSrgb,
        wgpu::TextureFormat::Bgra8Unorm,
        wgpu::TextureFormat::Rgba8Unorm,
    ];
    assert_eq!(surface_format_index(&formats), 2);
}

#[test]
fn surface_format_all_srgb_takes_first() {
    let formats = vec![
        wgpu::TextureFormat::Rgba8UnormSrgb,
        wgpu::TextureFormat::Bgra8UnormSrgb,
    ];
    assert_eq!(surface_format_index(&formats), 0);
}

#[test]
fn surface_format_non_srgb_first() {
    let formats = vec![wgpu::TextureFormat::Rgba16Float, wgpu::TextureFormat::Bgra8UnormSrgb];
    assert_eq!(surface_format_index(&formats), 0);
}

#[test]
fn frame_actions() {
    assert_eq!(frame_action(SurfaceStatus::Success), FrameAction::Render);
    assert_eq!(frame_action(SurfaceStatus::Suboptimal), FrameAction::Render);
    assert_eq!(frame_action(SurfaceStatus::Outdated), FrameAction::ReconfigureAndSkip);
    assert_eq!(frame_action(SurfaceStatus::Lost), FrameAction::ReconfigureAndSkip);
    assert_eq!(frame_action(SurfaceStatus::Timeout), FrameAction::Fail);
    assert_eq!(frame_action(SurfaceStatus::Occluded), FrameAction::Fail);
    assert_eq!(frame_action(SurfaceStatus::Validation), FrameAction::Fail);
}

#[test]
fn frame_counter_counts_every_frame() {
    let mut counter = FrameCounter::new();
    assert_eq!(counter.frames(), 0);
    for _ in 0..10 {
        counter.record_frame(false);
    }
    assert_eq!(counter.frames(), 10);
    assert_eq!(counter.window_frames(), 10);
}

#[test]
fn frame_counter_closes_window() {
    let mut counter = FrameCounter::new();
    assert_eq!(counter.record_frame(false), None);
    assert_eq!(counter.record_frame(false), None);
    assert_eq!(counter.record_frame(true), Some(3));
    assert_eq!(counter.window_frames(), 0);
    assert_eq!(counter.frames(), 3);
    assert_eq!(counter.record_frame(true), Some(1));
    assert_eq!(counter.frames(), 4);
    assert!(counter.window_frames() as u64 <= counter.frames());
}

#[test]
fn scope_name_known_and_unknown() {
    assert_eq!(
        scope_name_or_unknown(Some("DedicatedWorkerGlobalScope".to_string())),
        "DedicatedWorkerGlobalScope"
    );
    assert_eq!(scope_name_or_unknown(None), "unknown");
}

#[test]
fn surface_format_srgb_then_linear() {
    let formats = vec![wgpu::TextureFormat::Bgra8UnormSrgb, wgpu::TextureFormat::Bgra8Unorm];
    assert_eq!(surface_format_index(&formats), 1);
}

#[test]
fn frames_between_polls_match_updates() {
    let mut counter = FrameCounter::new();
    counter.record_frame(true);
    let first = counter.frames();
    let windows = [false, true, false, false, true, false, false];
    for &elapsed in windows.iter() {
        counter.record_frame(elapsed);
    }
    assert_eq!(counter.frames() - first, windows.len() as u64);
}
