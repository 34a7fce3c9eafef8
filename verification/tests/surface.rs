use frameloop::AcquireOutcome;
use frameloop::Extent;
use frameloop::GpuCommand;
use frameloop::GuiRenderer;
use frameloop::LoadOp;
use frameloop::Renderer;
use frameloop::SurfaceError;
use frameloop::UiOutput;

fn extent(width: u32, height: u32) -> Extent {
    Extent { width, height }
}

#[test]
fn resize_then_begin_frame_succeeds() {
    // For any positive size, a resize leaves the surface ready: the next
    // acquisition cannot fail for a stale configuration.
    let mut renderer = Renderer::new(extent(800, 600));
    renderer.resize(extent(1024, 768));
    let frame = renderer.begin_frame(AcquireOutcome::Acquired).unwrap();
    assert_eq!(frame.width, 1024);
    assert_eq!(frame.height, 768);
}

#[test]
fn second_begin_frame_is_rejected() {
    let mut renderer = Renderer::new(extent(640, 480));
    let _frame = renderer.begin_frame(AcquireOutcome::Acquired).unwrap();
    let second = renderer.begin_frame(AcquireOutcome::Acquired);
    assert!(matches!(second, Err(SurfaceError::AlreadyAcquired)));
}

#[test]
fn begin_frame_after_end_frame_succeeds() {
    let mut renderer = Renderer::new(extent(640, 480));
    let frame = renderer.begin_frame(AcquireOutcome::Acquired).unwrap();
    let _submission = renderer.end_frame(frame);
    assert!(renderer.begin_frame(AcquireOutcome::Acquired).is_ok());
}

#[test]
fn timeout_maps_to_timeout_error() {
    let mut renderer = Renderer::new(extent(640, 480));
    let r = renderer.begin_frame(AcquireOutcome::Timeout);
    assert!(matches!(r, Err(SurfaceError::Timeout)));
    // The surface stays configured: the next attempt can succeed.
    assert!(renderer.begin_frame(AcquireOutcome::Acquired).is_ok());
}

#[test]
fn lost_maps_to_lost_error_and_needs_reconfiguration() {
    let mut renderer = Renderer::new(extent(640, 480));
    let r = renderer.begin_frame(AcquireOutcome::Lost);
    assert!(matches!(r, Err(SurfaceError::Lost)));
    // Reconfiguring with the same size recovers the surface.
    renderer.resize(extent(640, 480));
    assert!(renderer.begin_frame(AcquireOutcome::Acquired).is_ok());
}

#[test]
fn outdated_maps_to_outdated_error() {
    let mut renderer = Renderer::new(extent(640, 480));
    let r = renderer.begin_frame(AcquireOutcome::Outdated);
    assert!(matches!(r, Err(SurfaceError::Outdated)));
}

#[test]
fn out_of_memory_maps_to_out_of_memory_error() {
    let mut renderer = Renderer::new(extent(640, 480));
    let r = renderer.begin_frame(AcquireOutcome::OutOfMemory);
    assert!(matches!(r, Err(SurfaceError::OutOfMemory)));
}

#[test]
fn unclassified_error_maps_to_other() {
    let mut renderer = Renderer::new(extent(640, 480));
    let r = renderer.begin_frame(AcquireOutcome::Other);
    assert!(matches!(r, Err(SurfaceError::Other)));
}

#[test]
fn primary_pass_clears_whole_target() {
    let mut renderer = Renderer::new(extent(320, 200));
    let mut frame = renderer.begin_frame(AcquireOutcome::Acquired).unwrap();
    assert!(frame.commands.is_empty());
    renderer.render(&mut frame);
    assert_eq!(
        frame.commands,
        vec![GpuCommand::Pass { load: LoadOp::ClearBackground, width: 320, height: 200, draws: 0 }]
    );
}

#[test]
fn overlay_records_uploads_pass_frees_in_order() {
    let mut renderer = Renderer::new(extent(320, 200));
    let mut gui = GuiRenderer::new(&renderer);
    let mut frame = renderer.begin_frame(AcquireOutcome::Acquired).unwrap();
    renderer.render(&mut frame);

    let ui = UiOutput {
        textures_to_set: vec![7, 9],
        textures_to_free: vec![7],
        primitive_count: 5,
        pixels_per_point_milli: 1250,
    };
    gui.render(&mut frame, &renderer, &ui);

    assert_eq!(
        frame.commands,
        vec![
            GpuCommand::Pass { load: LoadOp::ClearBackground, width: 320, height: 200, draws: 0 },
            GpuCommand::UploadTexture { id: 7 },
            GpuCommand::UploadTexture { id: 9 },
            GpuCommand::UpdateBuffers { width: 320, height: 200, pixels_per_point_milli: 1250 },
            GpuCommand::Pass { load: LoadOp::LoadExisting, width: 320, height: 200, draws: 5 },
            GpuCommand::FreeTexture { id: 7 },
        ]
    );

    let submission = renderer.end_frame(frame);
    assert_eq!(submission.width, 320);
    assert_eq!(submission.height, 200);
    assert_eq!(submission.commands.len(), 6);
}

#[test]
fn overlay_pass_uses_current_surface_size() {
    // The overlay pass is sized to the surface, even if the frame was
    // acquired at another size.
    let mut renderer = Renderer::new(extent(100, 100));
    let mut gui = GuiRenderer::new(&renderer);
    let mut frame = renderer.begin_frame(AcquireOutcome::Acquired).unwrap();
    renderer.resize(extent(50, 60));
    let ui = UiOutput {
        textures_to_set: vec![],
        textures_to_free: vec![],
        primitive_count: 1,
        pixels_per_point_milli: 1000,
    };
    gui.render(&mut frame, &renderer, &ui);
    assert_eq!(
        frame.commands,
        vec![
            GpuCommand::UpdateBuffers { width: 50, height: 60, pixels_per_point_milli: 1000 },
            GpuCommand::Pass { load: LoadOp::LoadExisting, width: 50, height: 60, draws: 1 },
        ]
    );
}
