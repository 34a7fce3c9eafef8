//! Application loop: owns the clock, input state, presentation surface,
//! overlay renderer and UI registry, sequences the four frame phases, and
//! dispatches window events into the input state.
//!
//! The host event loop performs the outside work — window creation, device
//! negotiation, the real surface calls, UI tessellation — and drives this
//! loop with plain events: it calls `window_event` for each window event,
//! and on a redraw runs the four phases `begin_phase`, `update_phase`,
//! `declare_ui` (handing the declarations to the UI toolkit), `render_phase`
//! (with the acquisition outcome and the tessellation report) and
//! `end_phase`, executing the commands and actions each phase returns.
//! Before activation no `App` value exists; constructing one with `resumed`
//! or `activate` is the transition into the running state.

use vstd::prelude::*;

use crate::gui::GuiRenderer;
use crate::gui::UiOutput;
use crate::inputs::Inputs;
use crate::inputs::Vec2i;
use crate::renderer::AcquireOutcome;
use crate::renderer::Extent;
use crate::renderer::FrameSubmission;
use crate::renderer::GpuCommand;
use crate::renderer::LoadOp;
use crate::renderer::Renderer;
use crate::time::Time;
use crate::ui::FeatureUi;
use crate::ui::Performances;
use crate::ui::UiContext;
use crate::ui::UserInterface;
use crate::ui::WidgetDecl;

verus! {

/// Thousandths of a line that one pixel of pixel-based scroll counts as:
/// the policy that normalizes pixel-based scroll into the line-based
/// accumulator, at roughly sixteen pixels per line.
pub const SCROLL_MILLI_LINES_PER_PIXEL: i64 = 62;

/// Read-only frame context handed to each UI feature.
pub struct AppContext<'a> {
    pub time: &'a Time,
    pub inputs: &'a Inputs,
}

/// A window or input event, translated by the host into plain values: key
/// and button codes are numbers, cursor positions are subpixel coordinates,
/// scroll is in thousandths of a line or in pixels.
#[derive(Clone, Copy, Debug, PartialEq, Eq, Structural)]
pub enum Event {
    /// The user asked to close the window.
    CloseRequested,
    /// The window should be redrawn: run the four frame phases.
    RedrawRequested,
    /// The window was resized.
    Resized { width: u32, height: u32 },
    /// The cursor moved to `position`, in window coordinates.
    CursorMoved { position: Vec2i },
    /// Line-based scroll, both components in thousandths of a line.
    MouseWheelLines { x_milli: i64, y_milli: i64 },
    /// Pixel-based scroll, both components in pixels.
    MouseWheelPixels { x_pixels: i64, y_pixels: i64 },
    /// A mouse button changed state.
    MouseButton { button: u64, pressed: bool },
    /// A key with a known physical key code changed state.
    Key { keycode: u64, pressed: bool },
    /// The modifier keys changed state.
    ModifiersChanged { alt: bool, ctrl: bool, shift: bool },
    /// Any event the loop does not consume.
    Other,
}

/// What the host must do after an event was dispatched.
#[derive(Clone, Copy, Debug, PartialEq, Eq, Structural)]
pub enum LoopAction {
    /// Terminate the event loop.
    Exit,
    /// Run the four frame phases.
    RunFrame,
    /// Reconfigure the real surface for the current size.
    Reconfigure,
    /// Ask the window system for the next redraw.
    RequestRedraw,
    /// Nothing further.
    Continue,
}

/// How the render phase resolved.
pub enum FrameResult {
    /// A frame was recorded: submit the batch as one unit, then present.
    Rendered(FrameSubmission),
    /// Acquisition timed out; the frame is skipped and retried on the next
    /// redraw.
    SkippedTimeout,
    /// The surface was lost or outdated; the frame is skipped and the
    /// surface was re-marked configured for the last known size, which the
    /// host must apply to the real surface.
    SkippedLost,
    /// The device is out of memory; the host must terminate.
    FatalOutOfMemory,
    /// An unclassified acquisition error; the frame is skipped.
    SkippedOther,
}

/// The running application: every subsystem live, surface configured.
pub struct App<F: FeatureUi> {
    renderer: Renderer,
    gui_renderer: GuiRenderer,
    gui: UserInterface<F>,
    inputs: Inputs,
    time: Time,
}

impl<F: FeatureUi> App<F> {
    /// The frame clock.
    pub closed spec fn spec_time(self) -> Time {
        self.time
    }

    /// The accumulated input state.
    pub closed spec fn spec_inputs(self) -> Inputs {
        self.inputs
    }

    /// The presentation surface's tracked state.
    pub closed spec fn spec_renderer(self) -> Renderer {
        self.renderer
    }

    /// The overlay renderer's tracked state.
    pub closed spec fn spec_gui_renderer(self) -> GuiRenderer {
        self.gui_renderer
    }

    /// The registered UI features.
    pub closed spec fn spec_gui(self) -> UserInterface<F> {
        self.gui
    }

    /// Between phases the clock is consistent, the surface is configured
    /// and no frame is in progress.
    pub open spec fn wf(self) -> bool {
        &&& self.spec_time().wf()
        &&& self.spec_renderer().spec_configured()
        &&& !self.spec_renderer().spec_frame_open()
    }

    /// Activate the application with an already-built feature registry: the
    /// transition from "not yet activated" into the running state. The host
    /// has created the window, negotiated the device, and configured the
    /// real surface for `width` by `height`; `now` is the current monotonic
    /// timestamp.
    pub fn activate(gui: UserInterface<F>, width: u32, height: u32, now: u64) -> (app: App<F>)
        ensures
            app.wf(),
            app.spec_renderer().spec_size() == (Extent { width, height }),
            app.spec_gui_renderer().spec_textures() == Set::<u64>::empty(),
            app.spec_gui() == gui,
            app.spec_time().spec_last_time() == now,
            app.spec_time().spec_last_sec() == now,
            app.spec_time().spec_frame_count() == 0,
            app.spec_time().spec_fps() == 0,
            app.spec_inputs().spec_keys() == Map::<u64, bool>::empty(),
            app.spec_inputs().spec_mouse() == Map::<u64, bool>::empty(),
            app.spec_inputs().spec_mouse_delta() == (Vec2i { x: 0, y: 0 }),
            app.spec_inputs().spec_mouse_wheel_delta() == 0,
    {
        let renderer = Renderer::new(Extent { width, height });
        let gui_renderer = GuiRenderer::new(&renderer);
        App { renderer, gui_renderer, gui, inputs: Inputs::new(), time: Time::new(now) }
    }

    /// The frame clock, for hosts and tests to read.
    pub fn time(&self) -> (r: &Time)
        ensures
            *r == self.spec_time(),
    {
        &self.time
    }

    /// The accumulated input state, for hosts and tests to read.
    pub fn inputs(&self) -> (r: &Inputs)
        ensures
            *r == self.spec_inputs(),
    {
        &self.inputs
    }

    /// Begin of frame phase: a hook reserved for pre-update work.
    pub fn begin_phase(&mut self)
        ensures
            *final(self) == *old(self),
    {
    }

    /// Game logic update phase: advance the clock to `now` and return the
    /// elapsed nanoseconds since the previous frame.
    pub fn update_phase(&mut self, now: u64) -> (delta: u64)
        requires
            old(self).wf(),
            now >= old(self).spec_time().spec_last_time(),
            old(self).spec_time().spec_frame_count() < u64::MAX,
        ensures
            final(self).wf(),
            delta == now - old(self).spec_time().spec_last_time(),
            final(self).spec_time().spec_delta_time() == delta,
            final(self).spec_time().spec_last_time() == now,
            final(self).spec_time() == old(self).spec_time().ticked(now),
            final(self).spec_time().spec_fps() == if now - old(
                self,
            ).spec_time().spec_last_sec() >= crate::time::NANOS_PER_SEC {
                old(self).spec_time().spec_frame_count()
            } else {
                old(self).spec_time().spec_fps()
            },
            final(self).spec_time().spec_frame_count() == if now - old(
                self,
            ).spec_time().spec_last_sec() >= crate::time::NANOS_PER_SEC {
                1 as int
            } else {
                old(self).spec_time().spec_frame_count() + 1
            },
            final(self).spec_time().spec_last_sec() == if now - old(
                self,
            ).spec_time().spec_last_sec() >= crate::time::NANOS_PER_SEC {
                now
            } else {
                old(self).spec_time().spec_last_sec()
            },
            final(self).spec_inputs() == old(self).spec_inputs(),
            final(self).spec_renderer() == old(self).spec_renderer(),
            final(self).spec_gui_renderer() == old(self).spec_gui_renderer(),
            final(self).spec_gui() == old(self).spec_gui(),
    {
        self.time.tick(now)
    }

    /// Run every registered UI feature against the current frame context
    /// and return the declared widgets, in declaration order, for the host
    /// to lay out and tessellate.
    pub fn declare_ui(&mut self) -> (decls: Vec<WidgetDecl>)
        ensures
            old(self).wf() ==> final(self).wf(),
            decls@ == UserInterface::<F>::spec_contributions(
                old(self).spec_gui().spec_features(),
                old(self).spec_time(),
                old(self).spec_inputs(),
            ),
            final(self).spec_time() == old(self).spec_time(),
            final(self).spec_inputs() == old(self).spec_inputs(),
            final(self).spec_renderer() == old(self).spec_renderer(),
            final(self).spec_gui_renderer() == old(self).spec_gui_renderer(),
            final(self).spec_gui().spec_features().len() == old(
                self,
            ).spec_gui().spec_features().len(),
    {
        let mut ctx = UiContext::new();
        let app_ctx = AppContext { time: &self.time, inputs: &self.inputs };
        self.gui.run_ui(&mut ctx, &app_ctx);
        let decls = ctx.into_widgets();
        decls
    }

    /// Rendering phase, for one acquisition attempt whose outcome the host
    /// reports, together with the UI toolkit's tessellation report for this
    /// frame's declared widgets.
    ///
    /// On success the returned submission holds the whole frame's command
    /// batch: the primary pass clearing the target, then the overlay in its
    /// safe order (texture uploads, buffer upload, a load-existing pass
    /// over the same target, texture frees). A timeout or an unclassified
    /// error skips the frame. A lost or outdated surface skips the frame
    /// and proactively re-marks the surface configured for the last known
    /// size. Out-of-memory is fatal: the host must terminate.
    pub fn render_phase(&mut self, outcome: AcquireOutcome, ui: &UiOutput) -> (r: FrameResult)
        requires
            old(self).wf(),
        ensures
            final(self).wf(),
            final(self).spec_time() == old(self).spec_time(),
            final(self).spec_inputs() == old(self).spec_inputs(),
            final(self).spec_gui() == old(self).spec_gui(),
            final(self).spec_renderer().spec_size() == old(self).spec_renderer().spec_size(),
            match outcome {
                AcquireOutcome::Acquired => {
                    &&& r matches FrameResult::Rendered(sub)
                        && sub.width == old(self).spec_renderer().spec_size().width
                        && sub.height == old(self).spec_renderer().spec_size().height
                        && sub.commands@ == seq![GpuCommand::Pass {
                            load: LoadOp::ClearBackground,
                            width: old(self).spec_renderer().spec_size().width,
                            height: old(self).spec_renderer().spec_size().height,
                            draws: 0,
                        }] + ui.textures_to_set@.map_values(
                            |id: u64| GpuCommand::UploadTexture { id },
                        ) + seq![GpuCommand::UpdateBuffers {
                            width: old(self).spec_renderer().spec_size().width,
                            height: old(self).spec_renderer().spec_size().height,
                            pixels_per_point_milli: ui.pixels_per_point_milli,
                        }] + seq![GpuCommand::Pass {
                            load: LoadOp::LoadExisting,
                            width: old(self).spec_renderer().spec_size().width,
                            height: old(self).spec_renderer().spec_size().height,
                            draws: ui.primitive_count,
                        }] + ui.textures_to_free@.map_values(
                            |id: u64| GpuCommand::FreeTexture { id },
                        )
                    &&& final(self).spec_gui_renderer().spec_textures() == old(
                        self,
                    ).spec_gui_renderer().spec_textures().union(
                        ui.textures_to_set@.to_set(),
                    ).difference(ui.textures_to_free@.to_set())
                },
                AcquireOutcome::Timeout => {
                    &&& r matches FrameResult::SkippedTimeout
                    &&& *final(self) == *old(self)
                },
                AcquireOutcome::Lost => {
                    &&& r matches FrameResult::SkippedLost
                    &&& final(self).spec_gui_renderer() == old(self).spec_gui_renderer()
                },
                AcquireOutcome::Outdated => {
                    &&& r matches FrameResult::SkippedLost
                    &&& final(self).spec_gui_renderer() == old(self).spec_gui_renderer()
                },
                AcquireOutcome::OutOfMemory => {
                    &&& r matches FrameResult::FatalOutOfMemory
                    &&& *final(self) == *old(self)
                },
                AcquireOutcome::Other => {
                    &&& r matches FrameResult::SkippedOther
                    &&& *final(self) == *old(self)
                },
            },
    {
        match self.renderer.begin_frame(outcome) {
            Ok(mut frame) => {
                self.renderer.render(&mut frame);
                self.gui_renderer.render(&mut frame, &self.renderer, ui);
                let sub = self.renderer.end_frame(frame);
                FrameResult::Rendered(sub)
            },
            Err(crate::renderer::SurfaceError::Timeout) => {
                // A frame took too long to present: skip and retry next tick.
                FrameResult::SkippedTimeout
            },
            Err(crate::renderer::SurfaceError::Lost)
            | Err(crate::renderer::SurfaceError::Outdated) => {
                // Self-heal a stale presentation target: reconfigure with
                // the last known size rather than waiting for a resize.
                self.renderer.configure_surface();
                FrameResult::SkippedLost
            },
            Err(crate::renderer::SurfaceError::OutOfMemory) => {
                // The system is out of memory: terminate the loop.
                FrameResult::FatalOutOfMemory
            },
            Err(crate::renderer::SurfaceError::AlreadyAcquired)
            | Err(crate::renderer::SurfaceError::Other) => {
                // AlreadyAcquired cannot occur here: no frame is in
                // progress between phases.
                FrameResult::SkippedOther
            },
        }
    }

    /// End of frame phase: zero the input accumulators and ask the host to
    /// request the next redraw.
    pub fn end_phase(&mut self) -> (action: LoopAction)
        ensures
            old(self).wf() ==> final(self).wf(),
            action == LoopAction::RequestRedraw,
            final(self).spec_inputs().spec_mouse_delta() == (Vec2i { x: 0, y: 0 }),
            final(self).spec_inputs().spec_mouse_wheel_delta() == 0,
            final(self).spec_inputs().spec_keys() == old(self).spec_inputs().spec_keys(),
            final(self).spec_inputs().spec_mouse() == old(self).spec_inputs().spec_mouse(),
            final(self).spec_inputs().spec_modifiers() == old(
                self,
            ).spec_inputs().spec_modifiers(),
            final(self).spec_time() == old(self).spec_time(),
            final(self).spec_renderer() == old(self).spec_renderer(),
            final(self).spec_gui_renderer() == old(self).spec_gui_renderer(),
            final(self).spec_gui() == old(self).spec_gui(),
    {
        self.inputs.reset();
        LoopAction::RequestRedraw
    }

    /// Resize callback: track the new size and mark the surface
    /// reconfigured for it.
    pub fn on_resize(&mut self, width: u32, height: u32)
        ensures
            final(self).spec_renderer().spec_size() == (Extent { width, height }),
            final(self).spec_renderer().spec_configured(),
            final(self).spec_renderer().spec_frame_open() == old(
                self,
            ).spec_renderer().spec_frame_open(),
            final(self).spec_time() == old(self).spec_time(),
            final(self).spec_inputs() == old(self).spec_inputs(),
            final(self).spec_gui_renderer() == old(self).spec_gui_renderer(),
            final(self).spec_gui() == old(self).spec_gui(),
    {
        self.renderer.resize(Extent { width, height });
    }

    /// Dispatch one window event: route input events into the input state,
    /// resizes into the presentation surface, and tell the host what to do
    /// next — exit on a close request, run the four frame phases on a
    /// redraw request, reconfigure the real surface after a resize.
    pub fn window_event(&mut self, event: Event) -> (action: LoopAction)
        requires
            match event {
                Event::CursorMoved { position } => {
                    &&& old(self).spec_inputs().spec_mouse_delta().x + position.x <= i64::MAX
                    &&& old(self).spec_inputs().spec_mouse_delta().x + position.x >= i64::MIN
                    &&& old(self).spec_inputs().spec_mouse_delta().y + position.y <= i64::MAX
                    &&& old(self).spec_inputs().spec_mouse_delta().y + position.y >= i64::MIN
                },
                Event::MouseWheelLines { x_milli, y_milli } => {
                    &&& old(self).spec_inputs().spec_mouse_wheel_delta() + x_milli <= i64::MAX
                    &&& old(self).spec_inputs().spec_mouse_wheel_delta() + x_milli >= i64::MIN
                },
                Event::MouseWheelPixels { x_pixels, y_pixels } => {
                    &&& x_pixels * SCROLL_MILLI_LINES_PER_PIXEL <= i64::MAX
                    &&& x_pixels * SCROLL_MILLI_LINES_PER_PIXEL >= i64::MIN
                    &&& old(self).spec_inputs().spec_mouse_wheel_delta() + x_pixels
                        * SCROLL_MILLI_LINES_PER_PIXEL <= i64::MAX
                    &&& old(self).spec_inputs().spec_mouse_wheel_delta() + x_pixels
                        * SCROLL_MILLI_LINES_PER_PIXEL >= i64::MIN
                },
                _ => true,
            },
        ensures
            old(self).wf() ==> final(self).wf(),
            final(self).spec_time() == old(self).spec_time(),
            final(self).spec_gui_renderer() == old(self).spec_gui_renderer(),
            final(self).spec_gui() == old(self).spec_gui(),
            match event {
                Event::CloseRequested => {
                    &&& action == LoopAction::Exit
                    &&& *final(self) == *old(self)
                },
                Event::RedrawRequested => {
                    &&& action == LoopAction::RunFrame
                    &&& *final(self) == *old(self)
                },
                Event::Resized { width, height } => {
                    &&& action == LoopAction::Reconfigure
                    &&& final(self).spec_renderer().spec_size() == (Extent { width, height })
                    &&& final(self).spec_renderer().spec_configured()
                    &&& final(self).spec_renderer().spec_frame_open() == old(
                        self,
                    ).spec_renderer().spec_frame_open()
                    &&& final(self).spec_inputs() == old(self).spec_inputs()
                },
                Event::CursorMoved { position } => {
                    &&& action == LoopAction::Continue
                    &&& final(self).spec_renderer() == old(self).spec_renderer()
                    &&& final(self).spec_inputs().spec_mouse_delta().x == old(
                        self,
                    ).spec_inputs().spec_mouse_delta().x + position.x
                    &&& final(self).spec_inputs().spec_mouse_delta().y == old(
                        self,
                    ).spec_inputs().spec_mouse_delta().y + position.y
                    &&& final(self).spec_inputs().spec_mouse_wheel_delta() == old(
                        self,
                    ).spec_inputs().spec_mouse_wheel_delta()
                    &&& final(self).spec_inputs().spec_keys() == old(
                        self,
                    ).spec_inputs().spec_keys()
                    &&& final(self).spec_inputs().spec_mouse() == old(
                        self,
                    ).spec_inputs().spec_mouse()
                    &&& final(self).spec_inputs().spec_modifiers() == old(
                        self,
                    ).spec_inputs().spec_modifiers()
                },
                Event::MouseWheelLines { x_milli, y_milli } => {
                    &&& action == LoopAction::Continue
                    &&& final(self).spec_renderer() == old(self).spec_renderer()
                    &&& final(self).spec_inputs().spec_mouse_wheel_delta() == old(
                        self,
                    ).spec_inputs().spec_mouse_wheel_delta() + x_milli
                    &&& final(self).spec_inputs().spec_mouse_delta() == old(
                        self,
                    ).spec_inputs().spec_mouse_delta()
                    &&& final(self).spec_inputs().spec_keys() == old(
                        self,
                    ).spec_inputs().spec_keys()
                    &&& final(self).spec_inputs().spec_mouse() == old(
                        self,
                    ).spec_inputs().spec_mouse()
                    &&& final(self).spec_inputs().spec_modifiers() == old(
                        self,
                    ).spec_inputs().spec_modifiers()
                },
                Event::MouseWheelPixels { x_pixels, y_pixels } => {
                    &&& action == LoopAction::Continue
                    &&& final(self).spec_renderer() == old(self).spec_renderer()
                    &&& final(self).spec_inputs().spec_mouse_wheel_delta() == old(
                        self,
                    ).spec_inputs().spec_mouse_wheel_delta() + x_pixels
                        * SCROLL_MILLI_LINES_PER_PIXEL
                    &&& final(self).spec_inputs().spec_mouse_delta() == old(
                        self,
                    ).spec_inputs().spec_mouse_delta()
                    &&& final(self).spec_inputs().spec_keys() == old(
                        self,
                    ).spec_inputs().spec_keys()
                    &&& final(self).spec_inputs().spec_mouse() == old(
                        self,
                    ).spec_inputs().spec_mouse()
                    &&& final(self).spec_inputs().spec_modifiers() == old(
                        self,
                    ).spec_inputs().spec_modifiers()
                },
                Event::MouseButton { button, pressed } => {
                    &&& action == LoopAction::Continue
                    &&& final(self).spec_renderer() == old(self).spec_renderer()
                    &&& final(self).spec_inputs().spec_mouse() == old(
                        self,
                    ).spec_inputs().spec_mouse().insert(button, pressed)
                    &&& final(self).spec_inputs().spec_keys() == old(
                        self,
                    ).spec_inputs().spec_keys()
                    &&& final(self).spec_inputs().spec_mouse_delta() == old(
                        self,
                    ).spec_inputs().spec_mouse_delta()
                    &&& final(self).spec_inputs().spec_mouse_wheel_delta() == old(
                        self,
                    ).spec_inputs().spec_mouse_wheel_delta()
                    &&& final(self).spec_inputs().spec_modifiers() == old(
                        self,
                    ).spec_inputs().spec_modifiers()
                },
                Event::Key { keycode, pressed } => {
                    &&& action == LoopAction::Continue
                    &&& final(self).spec_renderer() == old(self).spec_renderer()
                    &&& final(self).spec_inputs().spec_keys() == old(
                        self,
                    ).spec_inputs().spec_keys().insert(keycode, pressed)
                    &&& final(self).spec_inputs().spec_mouse() == old(
                        self,
                    ).spec_inputs().spec_mouse()
                    &&& final(self).spec_inputs().spec_mouse_delta() == old(
                        self,
                    ).spec_inputs().spec_mouse_delta()
                    &&& final(self).spec_inputs().spec_mouse_wheel_delta() == old(
                        self,
                    ).spec_inputs().spec_mouse_wheel_delta()
                    &&& final(self).spec_inputs().spec_modifiers() == old(
                        self,
                    ).spec_inputs().spec_modifiers()
                },
                Event::ModifiersChanged { alt, ctrl, shift } => {
                    &&& action == LoopAction::Continue
                    &&& final(self).spec_renderer() == old(self).spec_renderer()
                    &&& final(self).spec_inputs().spec_modifiers() == (crate::inputs::Modifiers {
                        alt,
                        ctrl,
                        shift,
                    })
                    &&& final(self).spec_inputs().spec_keys() == old(
                        self,
                    ).spec_inputs().spec_keys()
                    &&& final(self).spec_inputs().spec_mouse() == old(
                        self,
                    ).spec_inputs().spec_mouse()
                    &&& final(self).spec_inputs().spec_mouse_delta() == old(
                        self,
                    ).spec_inputs().spec_mouse_delta()
                    &&& final(self).spec_inputs().spec_mouse_wheel_delta() == old(
                        self,
                    ).spec_inputs().spec_mouse_wheel_delta()
                },
                Event::Other => {
                    &&& action == LoopAction::Continue
                    &&& *final(self) == *old(self)
                },
            },
    {
        match event {
            Event::CloseRequested => LoopAction::Exit,
            Event::RedrawRequested => LoopAction::RunFrame,
            Event::Resized { width, height } => {
                self.on_resize(width, height);
                LoopAction::Reconfigure
            },
            Event::CursorMoved { position } => {
                self.inputs.on_mouse_move(position);
                LoopAction::Continue
            },
            Event::MouseWheelLines { x_milli, y_milli: _ } => {
                // Line-based scroll accumulates its first component, the
                // unit the accumulator is defined in.
                self.inputs.on_mouse_wheel(x_milli);
                LoopAction::Continue
            },
            Event::MouseWheelPixels { x_pixels, y_pixels: _ } => {
                // Pixel-based scroll is normalized into the line-based
                // accumulator with a fixed thousandths-per-pixel policy.
                let milli = x_pixels * SCROLL_MILLI_LINES_PER_PIXEL;
                self.inputs.on_mouse_wheel(milli);
                LoopAction::Continue
            },
            Event::MouseButton { button, pressed } => {
                if pressed {
                    self.inputs.on_mouse_button_down(button);
                } else {
                    self.inputs.on_mouse_button_up(button);
                }
                LoopAction::Continue
            },
            Event::Key { keycode, pressed } => {
                if pressed {
                    self.inputs.on_key_down(keycode);
                } else {
                    self.inputs.on_key_up(keycode);
                }
                LoopAction::Continue
            },
            Event::ModifiersChanged { alt, ctrl, shift } => {
                self.inputs.set_modifiers(alt, ctrl, shift);
                LoopAction::Continue
            },
            Event::Other => LoopAction::Continue,
        }
    }
}

impl App<Performances> {
    /// Activate the application with the engine's built-in UI features
    /// registered: the window is created, the device negotiated, and the
    /// real surface configured for `width` by `height`; `now` is the
    /// current monotonic timestamp.
    pub fn resumed(width: u32, height: u32, now: u64) -> (app: App<Performances>)
        ensures
            app.wf(),
            app.spec_renderer().spec_size() == (Extent { width, height }),
            app.spec_gui_renderer().spec_textures() == Set::<u64>::empty(),
            app.spec_gui().spec_features() == seq![Performances {}],
            app.spec_time().spec_last_time() == now,
            app.spec_time().spec_last_sec() == now,
            app.spec_time().spec_frame_count() == 0,
            app.spec_time().spec_fps() == 0,
            app.spec_inputs().spec_keys() == Map::<u64, bool>::empty(),
            app.spec_inputs().spec_mouse() == Map::<u64, bool>::empty(),
            app.spec_inputs().spec_mouse_delta() == (Vec2i { x: 0, y: 0 }),
            app.spec_inputs().spec_mouse_wheel_delta() == 0,
    {
        let mut user_interface = UserInterface::<Performances>::new();
        user_interface.init();
        proof {
            assert(user_interface.spec_features() =~= seq![Performances {}]);
        }
        App::activate(user_interface, width, height, now)
    }
}

} // verus!
