use frameloop::App;
use frameloop::AppContext;
use frameloop::Event;
use frameloop::FeatureUi;
use frameloop::FrameResult;
use frameloop::GpuCommand;
use frameloop::LoadOp;
use frameloop::LoopAction;
use frameloop::UiContext;
use frameloop::UserInterface;
use frameloop::AcquireOutcome;
use frameloop::UiOutput;
use frameloop::Vec2i;

const SPACE: u64 = 44;
const PROBE_PANEL: u64 = 99;

fn empty_ui() -> UiOutput {
    UiOutput {
        textures_to_set: vec![],
        textures_to_free: vec![],
        primitive_count: 0,
        pixels_per_point_milli: 1000,
    }
}

/// A test feature that declares whether the space key reads as pressed
/// at the moment the UI callback runs.
struct SpaceProbe {}

impl FeatureUi for SpaceProbe {
    fn spec_contribution(
        self,
        _time: frameloop::Time,
        _inputs: frameloop::Inputs,
    ) -> vstd::seq::Seq<frameloop::WidgetDecl> {
        unreachable!()
    }

    fn ui(&mut self, ctx: &mut UiContext, app_ctx: &AppContext) {
        let down = if app_ctx.inputs.get_key_down(SPACE) { 1 } else { 0 };
        ctx.declare(PROBE_PANEL, down);
    }
}

/// A test feature that declares a fixed marker value.
struct Marker {
    value: u64,
}

impl FeatureUi for Marker {
    fn spec_contribution(
        self,
        _time: frameloop::Time,
        _inputs: frameloop::Inputs,
    ) -> vstd::seq::Seq<frameloop::WidgetDecl> {
        unreachable!()
    }

    fn ui(&mut self, ctx: &mut UiContext, _app_ctx: &AppContext) {
        ctx.declare(PROBE_PANEL, self.value);
    }
}

#[test]
fn features_run_in_registration_order() {
    let mut gui = UserInterface::new();
    gui.register(Marker { value: 10 });
    gui.register(Marker { value: 20 });
    gui.register(Marker { value: 30 });
    let mut app = App::activate(gui, 800, 600, 0);

    let decls = app.declare_ui();
    let values: Vec<u64> = decls.iter().map(|d| d.value).collect();
    assert_eq!(values, vec![10, 20, 30]);
}

#[test]
fn default_inputs_match_fresh_inputs() {
    let inputs = frameloop::Inputs::default();
    assert!(!inputs.get_key_down(0));
    assert!(!inputs.get_button_down(0));
    assert_eq!(inputs.get_mouse_delta(), Vec2i::new(0, 0));
    assert_eq!(inputs.get_mouse_wheel_delta(), 0);
    assert!(!inputs.get_modifiers().alt);
}

#[test]
fn resize_routes_to_surface_and_redraw_renders_at_new_size() {
    // Synthetic 800x600 window, resized to 1024x768 before the redraw:
    // the recorded passes must target 1024x768.
    let mut app = App::resumed(800, 600, 0);

    assert_eq!(app.window_event(Event::Resized { width: 1024, height: 768 }), LoopAction::Reconfigure);
    assert_eq!(app.window_event(Event::RedrawRequested), LoopAction::RunFrame);

    app.begin_phase();
    app.update_phase(1_000_000);
    let _decls = app.declare_ui();
    let result = app.render_phase(AcquireOutcome::Acquired, &empty_ui());
    match result {
        FrameResult::Rendered(sub) => {
            assert_eq!(sub.width, 1024);
            assert_eq!(sub.height, 768);
            assert_eq!(
                sub.commands,
                vec![
                    GpuCommand::Pass {
                        load: LoadOp::ClearBackground,
                        width: 1024,
                        height: 768,
                        draws: 0,
                    },
                    GpuCommand::UpdateBuffers {
                        width: 1024,
                        height: 768,
                        pixels_per_point_milli: 1000,
                    },
                    GpuCommand::Pass {
                        load: LoadOp::LoadExisting,
                        width: 1024,
                        height: 768,
                        draws: 0,
                    },
                ]
            );
        },
        _ => panic!("expected a rendered frame"),
    }
    assert_eq!(app.end_phase(), LoopAction::RequestRedraw);
}

#[test]
fn key_state_is_visible_in_ui_callback_and_survives_reset() {
    let mut gui = UserInterface::new();
    gui.register(SpaceProbe {});
    let mut app = App::activate(gui, 800, 600, 0);

    assert_eq!(app.window_event(Event::Key { keycode: SPACE, pressed: true }), LoopAction::Continue);
    assert_eq!(app.window_event(Event::RedrawRequested), LoopAction::RunFrame);

    app.begin_phase();
    app.update_phase(1_000_000);
    let decls = app.declare_ui();
    // Inside the UI callback the key reads as pressed.
    assert_eq!(decls.len(), 1);
    assert_eq!(decls[0].panel, PROBE_PANEL);
    assert_eq!(decls[0].value, 1);
    let _ = app.render_phase(AcquireOutcome::Acquired, &empty_ui());
    app.end_phase();

    // The end-of-frame reset clears only the accumulators, not key state.
    let decls = app.declare_ui();
    assert_eq!(decls[0].value, 1);
    assert!(app.inputs().get_key_down(SPACE));

    // Only an explicit key-up makes it read as released.
    app.window_event(Event::Key { keycode: SPACE, pressed: false });
    let decls = app.declare_ui();
    assert_eq!(decls[0].value, 0);
    assert!(!app.inputs().get_key_down(SPACE));
}

#[test]
fn acquisition_timeout_skips_frame_and_loop_continues() {
    let mut app = App::resumed(800, 600, 0);

    assert_eq!(app.window_event(Event::RedrawRequested), LoopAction::RunFrame);
    app.begin_phase();
    app.update_phase(1_000_000);
    let _decls = app.declare_ui();
    let result = app.render_phase(AcquireOutcome::Timeout, &empty_ui());
    // The frame is skipped: nothing was submitted or presented.
    assert!(matches!(result, FrameResult::SkippedTimeout));
    // The loop does not terminate and asks for the next redraw.
    assert_eq!(app.end_phase(), LoopAction::RequestRedraw);
    // The next cycle can render again.
    app.begin_phase();
    app.update_phase(2_000_000);
    let result = app.render_phase(AcquireOutcome::Acquired, &empty_ui());
    assert!(matches!(result, FrameResult::Rendered(_)));
}

#[test]
fn fps_after_three_cycles_in_one_second_reads_three() {
    let mut app = App::resumed(800, 600, 0);
    let ui = empty_ui();

    // Three redraw cycles inside the synthetic one-second window.
    for t in [200_000_000u64, 400_000_000, 600_000_000] {
        assert_eq!(app.window_event(Event::RedrawRequested), LoopAction::RunFrame);
        app.begin_phase();
        app.update_phase(t);
        let _decls = app.declare_ui();
        let r = app.render_phase(AcquireOutcome::Acquired, &ui);
        assert!(matches!(r, FrameResult::Rendered(_)));
        app.end_phase();
    }

    // One more tick past the one-second boundary publishes the count.
    app.begin_phase();
    app.update_phase(1_200_000_000);
    assert_eq!(app.time().fps(), 3);
    // The built-in performance panel shows the same value.
    let decls = app.declare_ui();
    assert_eq!(decls.len(), 1);
    assert_eq!(decls[0].panel, frameloop::ui::PERFORMANCES_PANEL);
    assert_eq!(decls[0].value, 3);
}

#[test]
fn out_of_memory_is_fatal() {
    let mut app = App::resumed(800, 600, 0);
    app.update_phase(1_000_000);
    let result = app.render_phase(AcquireOutcome::OutOfMemory, &empty_ui());
    assert!(matches!(result, FrameResult::FatalOutOfMemory));
}

#[test]
fn lost_surface_self_heals() {
    let mut app = App::resumed(800, 600, 0);
    app.update_phase(1_000_000);
    let result = app.render_phase(AcquireOutcome::Lost, &empty_ui());
    assert!(matches!(result, FrameResult::SkippedLost));
    // The surface was proactively reconfigured for the last known size:
    // the next frame renders without an intervening resize.
    let result = app.render_phase(AcquireOutcome::Acquired, &empty_ui());
    match result {
        FrameResult::Rendered(sub) => {
            assert_eq!(sub.width, 800);
            assert_eq!(sub.height, 600);
        },
        _ => panic!("expected a rendered frame"),
    }
}

#[test]
fn close_request_exits_loop() {
    let mut app = App::resumed(800, 600, 0);
    assert_eq!(app.window_event(Event::CloseRequested), LoopAction::Exit);
}

#[test]
fn input_events_route_into_input_state() {
    let mut app = App::resumed(800, 600, 0);

    app.window_event(Event::CursorMoved { position: Vec2i::new(3, 4) });
    app.window_event(Event::CursorMoved { position: Vec2i::new(10, 20) });
    assert_eq!(app.inputs().get_mouse_delta(), Vec2i::new(13, 24));

    app.window_event(Event::MouseWheelLines { x_milli: 2000, y_milli: 0 });
    assert_eq!(app.inputs().get_mouse_wheel_delta(), 2000);

    // Pixel-based scroll is normalized at 62 thousandths of a line per pixel.
    app.window_event(Event::MouseWheelPixels { x_pixels: 10, y_pixels: 0 });
    assert_eq!(app.inputs().get_mouse_wheel_delta(), 2620);

    app.window_event(Event::MouseButton { button: 1, pressed: true });
    assert!(app.inputs().get_button_down(1));

    app.window_event(Event::ModifiersChanged { alt: false, ctrl: true, shift: false });
    assert!(app.inputs().get_modifiers().ctrl);

    app.window_event(Event::Other);
    assert_eq!(app.inputs().get_mouse_delta(), Vec2i::new(13, 24));
}
