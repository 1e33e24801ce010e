use cube_scene::binding::{BindingFamily, PipelineKind};
use cube_scene::frame::{FrameEvent, FramePhase};
use cube_scene::pass::{
    ColorAttachment, ColorLoad, DepthAttachment, DepthLoad, DrawCommand, IndexFormat,
};
use cube_scene::rotator::UniformWrite;
use cube_scene::state::{
    FrameAction, InputEvent, InputRoute, Overlay, ResizeOutcome, SceneOptions, State,
};
use cube_scene::surface::{
    InitError, PhysicalSize, SurfaceCapabilities, SurfaceConfiguration, SurfaceError,
};

fn caps() -> SurfaceCapabilities {
    SurfaceCapabilities { formats_srgb: vec![false, true, true], present_modes: 3, alpha_modes: 1 }
}

fn scene(width: u32, height: u32) -> State {
    State::new(&caps(), width, height, SceneOptions::standard()).unwrap()
}

fn size(width: u32, height: u32) -> PhysicalSize {
    PhysicalSize { width, height }
}

#[test]
fn new_scene_takes_window_size_and_first_srgb_format() {
    let state = scene(640, 480);
    assert_eq!(
        state.config(),
        SurfaceConfiguration {
            width: 640,
            height: 480,
            format: 1,
            present_mode: 0,
            alpha_mode: 0,
            desired_maximum_frame_latency: 1,
        }
    );
    assert_eq!(state.size(), size(640, 480));
    assert_eq!(state.phase(), FramePhase::Idle);
    assert_eq!(state.depth_texture().width(), 640);
    assert_eq!(state.depth_texture().height(), 480);
    assert_eq!(state.camera_state().aspect(), (640, 480));
    assert_eq!(state.instances().count(), 20);
    assert!(matches!(state.depth_view(), Overlay::Enabled(_)));
}

#[test]
fn new_scene_without_formats_is_incompatible() {
    let none = SurfaceCapabilities { formats_srgb: vec![], present_modes: 1, alpha_modes: 1 };
    assert_eq!(
        State::new(&none, 640, 480, SceneOptions::standard()).err(),
        Some(InitError::IncompatibleSurface)
    );
    let no_present = SurfaceCapabilities { formats_srgb: vec![true], present_modes: 0, alpha_modes: 1 };
    assert_eq!(
        State::new(&no_present, 640, 480, SceneOptions::standard()).err(),
        Some(InitError::IncompatibleSurface)
    );
    let no_alpha = SurfaceCapabilities { formats_srgb: vec![true], present_modes: 1, alpha_modes: 0 };
    assert_eq!(
        State::new(&no_alpha, 0, 0, SceneOptions::standard()).err(),
        Some(InitError::IncompatibleSurface)
    );
}

#[test]
fn new_scene_rejects_empty_and_oversized_windows() {
    for (w, h) in [(0, 480), (640, 0), (8193, 480), (640, 8193)] {
        assert_eq!(
            State::new(&caps(), w, h, SceneOptions::standard()).err(),
            Some(InitError::InvalidSize)
        );
    }
    assert!(State::new(&caps(), 8192, 8192, SceneOptions::standard()).is_ok());
    assert!(State::new(&caps(), 1, 1, SceneOptions::standard()).is_ok());
}

#[test]
fn new_scene_rejects_grid_beyond_instance_range() {
    let options = SceneOptions { rows: u32::MAX, cols: 2, depth_overlay: true };
    assert_eq!(State::new(&caps(), 640, 480, options).err(), Some(InitError::TooManyInstances));
}

#[test]
fn resize_zero_or_oversized_keeps_configuration() {
    let mut state = scene(640, 480);
    let before = state.config();
    for (w, h) in [(0, 600), (800, 0), (8193, 600), (800, 8193), (0, 0)] {
        assert_eq!(state.resize(size(w, h)), ResizeOutcome::Ignored);
        assert_eq!(state.config(), before);
        assert_eq!(state.size(), size(640, 480));
        assert_eq!(state.depth_texture().width(), 640);
        assert_eq!(state.depth_texture().height(), 480);
    }
}

#[test]
fn resize_accepts_bounds_inclusive() {
    let mut state = scene(640, 480);
    let outcome = state.resize(size(8192, 1));
    assert_eq!(
        outcome,
        ResizeOutcome::Reconfigured {
            config: SurfaceConfiguration {
                width: 8192,
                height: 1,
                format: 1,
                present_mode: 0,
                alpha_mode: 0,
                desired_maximum_frame_latency: 1,
            },
            overlay_rebound: true,
        }
    );
    assert_eq!(state.size(), size(8192, 1));
}

#[test]
fn resize_without_overlay_rebinds_nothing() {
    let options = SceneOptions { rows: 4, cols: 4, depth_overlay: false };
    let mut state = State::new(&caps(), 640, 480, options).unwrap();
    match state.resize(size(800, 600)) {
        ResizeOutcome::Reconfigured { overlay_rebound, .. } => assert!(!overlay_rebound),
        ResizeOutcome::Ignored => panic!("a valid size was ignored"),
    }
}

#[test]
fn resize_then_render_draws_with_depth_buffer_of_new_size() {
    let mut state = scene(640, 480);
    state.resize(size(800, 600));
    let report = state.render(Ok(()));
    assert_eq!(report.result, Ok(()));
    assert_eq!(state.depth_texture().width(), 800);
    assert_eq!(state.depth_texture().height(), 600);
    assert_eq!(state.config().width, 800);
    assert_eq!(state.config().height, 600);
}

#[test]
fn render_twice_without_update_plans_the_same_frame() {
    let mut state = scene(640, 480);
    let writes = state.update();
    assert_eq!(writes.len(), 2);
    let first = state.render(Ok(()));
    let second = state.render(Ok(()));
    assert_eq!(first, second);
    match first.action {
        FrameAction::Present(buffer) => {
            for pass in buffer.passes.iter() {
                for command in pass.commands.iter() {
                    assert!(!matches!(command, DrawCommand::SetPipeline(_)) || pass.commands[0] == *command);
                }
            }
        }
        _ => panic!("an acquired frame was not presented"),
    }
}

#[test]
fn update_uploads_camera_then_rotation() {
    let mut state = scene(640, 480);
    for _ in 0..3 {
        assert_eq!(
            state.update(),
            vec![
                UniformWrite { family: BindingFamily::Camera, offset: 0, size: 64 },
                UniformWrite { family: BindingFamily::Rotation, offset: 0, size: 64 },
            ]
        );
        assert_eq!(state.phase(), FramePhase::Updated);
    }
}

#[test]
fn end_to_end_frame_records_two_passes_in_one_submission() {
    let options = SceneOptions { rows: 4, cols: 4, depth_overlay: true };
    let mut state = State::new(&caps(), 800, 600, options).unwrap();
    state.update();
    let report = state.render(Ok(()));
    assert_eq!(report.result, Ok(()));
    assert_eq!(
        report.phases,
        vec![
            FramePhase::Acquired,
            FramePhase::MainPassRecorded,
            FramePhase::OverlayPassRecorded,
            FramePhase::Submitted,
            FramePhase::Presented,
            FramePhase::Idle,
        ]
    );
    let buffer = match report.action {
        FrameAction::Present(buffer) => buffer,
        _ => panic!("an acquired frame was not presented"),
    };
    assert_eq!(buffer.passes.len(), 2);
    let main = &buffer.passes[0];
    assert_eq!(main.color, ColorAttachment { load: ColorLoad::ClearToBackground, store: true });
    assert_eq!(main.depth, Some(DepthAttachment { load: DepthLoad::ClearToFar, store: true }));
    assert_eq!(
        main.commands,
        vec![
            DrawCommand::SetPipeline(PipelineKind::Scene),
            DrawCommand::SetBindGroup { slot: 0, family: BindingFamily::Texture },
            DrawCommand::SetBindGroup { slot: 1, family: BindingFamily::Camera },
            DrawCommand::SetBindGroup { slot: 2, family: BindingFamily::Rotation },
            DrawCommand::SetBindGroup { slot: 3, family: BindingFamily::Instances },
            DrawCommand::SetVertexBuffer { slot: 0 },
            DrawCommand::SetIndexBuffer { format: IndexFormat::Uint16 },
            DrawCommand::DrawIndexed { index_count: 36, base_vertex: 0, instance_count: 20 },
        ]
    );
    let overlay = &buffer.passes[1];
    assert_eq!(overlay.color, ColorAttachment { load: ColorLoad::Load, store: true });
    assert_eq!(overlay.depth, None);
    assert_eq!(
        overlay.commands,
        vec![
            DrawCommand::SetPipeline(PipelineKind::DepthOverlay),
            DrawCommand::SetBindGroup { slot: 0, family: BindingFamily::Depth },
            DrawCommand::Draw { vertex_count: 3, instance_count: 1 },
        ]
    );
    assert_eq!(state.phase(), FramePhase::Idle);
}

#[test]
fn frame_without_overlay_records_one_pass() {
    let options = SceneOptions { rows: 1, cols: 3, depth_overlay: false };
    let mut state = State::new(&caps(), 800, 600, options).unwrap();
    let report = state.render(Ok(()));
    assert_eq!(
        report.phases,
        vec![
            FramePhase::Acquired,
            FramePhase::MainPassRecorded,
            FramePhase::Submitted,
            FramePhase::Presented,
            FramePhase::Idle,
        ]
    );
    match report.action {
        FrameAction::Present(buffer) => {
            assert_eq!(buffer.passes.len(), 1);
            assert_eq!(
                buffer.passes[0].commands[7],
                DrawCommand::DrawIndexed { index_count: 36, base_vertex: 0, instance_count: 6 }
            );
        }
        _ => panic!("an acquired frame was not presented"),
    }
}

#[test]
fn lost_or_outdated_surface_is_reconfigured_at_current_size() {
    for error in [SurfaceError::Lost, SurfaceError::Outdated] {
        let mut state = scene(640, 480);
        state.resize(size(1024, 768));
        state.update();
        let report = state.render(Err(error));
        assert_eq!(report.result, Err(error));
        assert_eq!(report.action, FrameAction::Reconfigure(state.config()));
        assert_eq!(state.config().width, 1024);
        assert_eq!(state.config().height, 768);
        assert_eq!(report.phases, vec![FramePhase::Idle]);
        assert_eq!(state.phase(), FramePhase::Idle);
        assert_eq!(state.render(Ok(())).result, Ok(()));
    }
}

#[test]
fn timeout_skips_the_frame() {
    let mut state = scene(640, 480);
    let report = state.render(Err(SurfaceError::Timeout));
    assert_eq!(report.result, Err(SurfaceError::Timeout));
    assert_eq!(report.action, FrameAction::Skip);
    assert_eq!(report.phases, vec![FramePhase::Idle]);
}

#[test]
fn out_of_memory_asks_for_shutdown() {
    let mut state = scene(640, 480);
    let report = state.render(Err(SurfaceError::OutOfMemory));
    assert_eq!(report.result, Err(SurfaceError::OutOfMemory));
    assert_eq!(report.action, FrameAction::Shutdown);
}

#[test]
fn cursor_sets_background_and_other_events_go_to_camera() {
    let mut state = scene(640, 480);
    assert_eq!(state.input(InputEvent::CursorMoved), InputRoute::Background);
    assert_eq!(state.phase(), FramePhase::InputConsumed);
    assert_eq!(state.input(InputEvent::Other), InputRoute::CameraController);
    assert_eq!(state.phase(), FramePhase::InputConsumed);
    assert!(InputRoute::Background.consumed(false));
    assert!(InputRoute::Background.consumed(true));
    assert!(!InputRoute::CameraController.consumed(false));
    assert!(InputRoute::CameraController.consumed(true));
    state.update();
    state.input(InputEvent::Other);
    assert_eq!(state.phase(), FramePhase::Updated);
}

#[test]
fn phases_follow_the_frame_cycle() {
    let mut phase = FramePhase::Idle;
    let walk = [
        (FrameEvent::Input, FramePhase::InputConsumed),
        (FrameEvent::Update, FramePhase::Updated),
        (FrameEvent::Acquire, FramePhase::Acquired),
        (FrameEvent::RecordMainPass, FramePhase::MainPassRecorded),
        (FrameEvent::RecordOverlayPass, FramePhase::OverlayPassRecorded),
        (FrameEvent::Submit, FramePhase::Submitted),
        (FrameEvent::Present, FramePhase::Presented),
        (FrameEvent::Finish, FramePhase::Idle),
    ];
    for (event, expected) in walk {
        phase = phase.advance(event).unwrap();
        assert_eq!(phase, expected);
    }
}

#[test]
fn phases_refuse_events_out_of_turn() {
    assert_eq!(FramePhase::Idle.advance(FrameEvent::Submit), None);
    assert_eq!(FramePhase::Acquired.advance(FrameEvent::Update), None);
    assert_eq!(FramePhase::Acquired.advance(FrameEvent::Present), None);
    assert_eq!(FramePhase::Submitted.advance(FrameEvent::Acquire), None);
    assert_eq!(FramePhase::Presented.advance(FrameEvent::Input), None);
    assert_eq!(
        FramePhase::Updated.advance(FrameEvent::AcquireFailed(SurfaceError::Timeout)),
        Some(FramePhase::Idle)
    );
    assert_eq!(
        FramePhase::MainPassRecorded.advance(FrameEvent::Submit),
        Some(FramePhase::Submitted)
    );
}
