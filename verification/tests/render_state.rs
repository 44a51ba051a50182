use particle_render::advance_frame_stage;
use particle_render::create_len;
use particle_render::handle_rendering;
use particle_render::handle_windowing;
use particle_render::select_surface_format;
use particle_render::Camera;
use particle_render::FrameAction;
use particle_render::FrameStage;
use particle_render::Instance;
use particle_render::Quad;
use particle_render::State;
use particle_render::SurfaceError;
use particle_render::Vec3Fp;
use particle_render::WindowAction;
use particle_render::WindowEvent;
use particle_render::FP_ONE;
use particle_render::INSTANCE_RAW_BYTES;

fn test_state(num_instances: u32) -> State {
    let vertices = Quad::vertices();
    let indices = Quad::indices();
    let draw = Quad::draw_index_count();
    let instances = create_len(num_instances, Vec3Fp { x: FP_ONE, y: FP_ONE, z: FP_ONE });
    State::new(640, 480, vertices, indices, draw, instances, Camera::default())
}

#[test]
fn new_state_sizes_every_buffer_from_its_contents() {
    let s = test_state(10);
    assert_eq!(s.config_width, 640);
    assert_eq!(s.config_height, 480);
    assert_eq!(s.depth_width, 640);
    assert_eq!(s.depth_height, 480);
    assert_eq!(s.num_instances, 10);
    assert_eq!(s.instance_buffer_bytes, 10 * INSTANCE_RAW_BYTES);
    assert_eq!(s.vertex_buffer_bytes, 4 * 20);
    assert_eq!(s.index_buffer_bytes, 6 * 2);
    assert_eq!(s.camera_buffer_bytes, 64);
    assert_eq!(s.num_indices, 6);
}

#[test]
fn resize_instances_resizes_the_buffer_exactly() {
    let mut s = test_state(10);
    let new_set = create_len(23, Vec3Fp { x: 0, y: FP_ONE, z: 0 });
    let upload = s.resize_instances(new_set);
    assert_eq!(s.num_instances, 23);
    assert_eq!(s.instance_buffer_bytes, 23 * INSTANCE_RAW_BYTES);
    assert_eq!(upload.len(), 23);
    let empty: Vec<Instance> = Vec::new();
    let upload = s.resize_instances(empty);
    assert_eq!(s.num_instances, 0);
    assert_eq!(s.instance_buffer_bytes, 0);
    assert_eq!(upload.len(), 0);
}

#[test]
fn update_instances_regenerates_the_raw_records() {
    let mut s = test_state(3);
    let upload = s.update_instances();
    assert_eq!(upload.len(), 3);
    for (raw, inst) in upload.iter().zip(s.instances.iter()) {
        assert_eq!(raw.position, inst.position);
        assert_eq!(raw.color, inst.color);
    }
    assert_eq!(upload.len() as u64 * INSTANCE_RAW_BYTES, s.instance_buffer_bytes);
}

#[test]
fn resize_to_a_real_size_reconfigures_everything() {
    let mut s = test_state(4);
    let plan = s.resize(800, 600).expect("non-zero resize must reconfigure");
    assert_eq!((plan.width, plan.height), (800, 600));
    assert_eq!(s.config_width, 800);
    assert_eq!(s.config_height, 600);
    assert_eq!(s.size_width, 800);
    assert_eq!(s.size_height, 600);
    assert_eq!(s.depth_width, 800);
    assert_eq!(s.depth_height, 600);
    assert_eq!(s.camera.aspect, 1_333_333);
    assert_eq!(
        s.camera_uniform.view_projection,
        Some(s.camera.build_view_projection_matrix()),
        "uniform must be resynchronized"
    );
    assert_eq!(plan.uniform, s.camera_uniform);
}

#[test]
fn zero_area_resize_changes_nothing() {
    let mut s = test_state(4);
    let aspect_before = s.camera.aspect;
    let uniform_before = s.camera_uniform;
    for (w, h) in [(0u32, 500u32), (500, 0), (0, 0)] {
        let plan = s.resize(w, h);
        assert!(plan.is_none(), "zero-area resize must be a no-op");
        assert_eq!(s.config_width, 640);
        assert_eq!(s.config_height, 480);
        assert_eq!(s.size_width, 640);
        assert_eq!(s.size_height, 480);
        assert_eq!(s.depth_width, 640);
        assert_eq!(s.depth_height, 480);
        assert_eq!(s.camera.aspect, aspect_before);
        assert_eq!(s.camera_uniform, uniform_before);
    }
}

#[test]
fn lost_surface_reconfigures_and_retries() {
    let mut s = test_state(2);
    let action = handle_rendering(&mut s, Err(SurfaceError::Lost));
    match action {
        FrameAction::Reconfigured(plan) => {
            assert_eq!((plan.width, plan.height), (640, 480));
        },
        other => panic!("lost surface must reconfigure, got {:?}", other),
    }
    assert_eq!(s.config_width, 640);
    assert_eq!(s.config_height, 480);
}

#[test]
fn outdated_surface_reconfigures_and_retries() {
    let mut s = test_state(2);
    let action = handle_rendering(&mut s, Err(SurfaceError::Outdated));
    assert!(matches!(action, FrameAction::Reconfigured(_)));
}

#[test]
fn out_of_memory_is_fatal() {
    let mut s = test_state(2);
    let before_instances = s.num_instances;
    let action = handle_rendering(&mut s, Err(SurfaceError::OutOfMemory));
    assert_eq!(action, FrameAction::Exit);
    assert_eq!(s.num_instances, before_instances);
}

#[test]
fn timeout_skips_the_frame_with_a_log() {
    let mut s = test_state(2);
    let action = handle_rendering(&mut s, Err(SurfaceError::Timeout));
    assert_eq!(action, FrameAction::SkipLogged);
    assert_eq!(s.config_width, 640);
}

#[test]
fn successful_frame_continues() {
    let mut s = test_state(2);
    let action = handle_rendering(&mut s, Ok(()));
    assert_eq!(action, FrameAction::Continue);
}

#[test]
fn frame_plan_draws_the_full_ranges() {
    let s = test_state(7);
    let plan = s.frame_plan();
    assert_eq!(plan.index_count, 6);
    assert_eq!(plan.instance_count, 7);
    assert_eq!(plan.depth_clear, FP_ONE);
    assert_eq!((plan.clear_color.r, plan.clear_color.g), (4_000, 3_000));
    assert_eq!((plan.clear_color.b, plan.clear_color.a), (8_000, FP_ONE));
}

#[test]
fn close_and_escape_exit_the_loop() {
    let mut s = test_state(1);
    assert_eq!(handle_windowing(&mut s, &WindowEvent::CloseRequested), WindowAction::Exit);
    assert_eq!(handle_windowing(&mut s, &WindowEvent::EscapePressed), WindowAction::Exit);
    assert_eq!(handle_windowing(&mut s, &WindowEvent::Other), WindowAction::Ignored);
}

#[test]
fn window_resize_events_reconfigure_unless_zero() {
    let mut s = test_state(1);
    let action = handle_windowing(&mut s, &WindowEvent::Resized(1024, 768));
    assert!(matches!(action, WindowAction::Reconfigured(_)));
    assert_eq!((s.config_width, s.config_height), (1024, 768));
    let action = handle_windowing(&mut s, &WindowEvent::Resized(0, 768));
    assert_eq!(action, WindowAction::Ignored);
    assert_eq!((s.config_width, s.config_height), (1024, 768));
    let action = handle_windowing(&mut s, &WindowEvent::ScaleFactorChanged(512, 384));
    assert!(matches!(action, WindowAction::Reconfigured(_)));
    assert_eq!((s.config_width, s.config_height), (512, 384));
}

#[test]
fn input_consumes_no_events() {
    let mut s = test_state(1);
    assert!(!s.input(&WindowEvent::CloseRequested));
    assert!(!s.input(&WindowEvent::Other));
}

#[test]
fn surface_format_prefers_the_first_srgb() {
    assert_eq!(select_surface_format(&vec![false, true, true]), 1);
    assert_eq!(select_surface_format(&vec![true, false]), 0);
    assert_eq!(select_surface_format(&vec![false, false]), 0);
    assert_eq!(select_surface_format(&vec![false]), 0);
}

#[test]
fn frame_stages_cycle_in_order() {
    let mut stage = FrameStage::Idle;
    let expected = [
        FrameStage::Updating,
        FrameStage::Acquiring,
        FrameStage::Recording,
        FrameStage::Submitting,
        FrameStage::Presented,
        FrameStage::Idle,
    ];
    for want in expected {
        stage = advance_frame_stage(stage);
        assert_eq!(stage, want);
    }
}
