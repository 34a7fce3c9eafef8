//! A minimal real-time frame-loop library: a clock, input-state accumulation,
//! a presentation-surface state machine, overlay-pass command planning, and
//! the four-phase application loop that drives them.
//!
//! The library models the GPU command stream as plain values; a host shell
//! performs the actual window, device and UI-toolkit calls and feeds their
//! outcomes back in as events.

pub mod app;
pub mod gui;
pub mod inputs;
pub mod renderer;
pub mod time;
pub mod ui;

pub use app::App;
pub use app::AppContext;
pub use app::Event;
pub use app::FrameResult;
pub use app::LoopAction;
pub use gui::GuiRenderer;
pub use gui::ScreenDescriptor;
pub use gui::UiOutput;
pub use inputs::Inputs;
pub use inputs::Modifiers;
pub use inputs::Vec2i;
pub use renderer::AcquireOutcome;
pub use renderer::Extent;
pub use renderer::Frame;
pub use renderer::FrameSubmission;
pub use renderer::GpuCommand;
pub use renderer::LoadOp;
pub use renderer::Renderer;
pub use renderer::SurfaceError;
pub use time::Time;
pub use ui::FeatureUi;
pub use ui::Performances;
pub use ui::UiContext;
pub use ui::UserInterface;
pub use ui::WidgetDecl;
