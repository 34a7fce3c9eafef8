//! Presentation surface: a state machine over the GPU device, queue and
//! window-bound surface that the host owns.
//!
//! The host performs the actual device negotiation, surface configuration,
//! texture acquisition, submission and presentation; it reports each
//! acquisition attempt's outcome here as an `AcquireOutcome`. This module
//! tracks the surface's configuration and frame-in-progress state, models
//! the recorded GPU work as a plain command stream, and decides how each
//! acquisition outcome is handled.

use vstd::prelude::*;

verus! {

/// Pixel size of the presentation target.
#[derive(Clone, Copy, Debug, PartialEq, Eq, Structural)]
pub struct Extent {
    pub width: u32,
    pub height: u32,
}

/// What the host reported for one attempt to acquire the next presentable
/// texture.
#[derive(Clone, Copy, Debug, PartialEq, Eq, Structural)]
pub enum AcquireOutcome {
    /// A texture was acquired; a frame can be recorded.
    Acquired,
    /// Acquisition took too long; the frame should be skipped and retried
    /// on the next redraw.
    Timeout,
    /// The surface was lost; it needs reconfiguration.
    Lost,
    /// The surface no longer matches the window; it needs reconfiguration.
    Outdated,
    /// The device is out of memory; unrecoverable.
    OutOfMemory,
    /// Any other acquisition error; the frame is skipped.
    Other,
}

/// Why `begin_frame` produced no frame.
#[derive(Clone, Copy, Debug, PartialEq, Eq, Structural)]
pub enum SurfaceError {
    /// A frame begun earlier has not been resolved yet; at most one frame
    /// may be in progress at a time.
    AlreadyAcquired,
    /// Acquisition took too long (transient; skip and retry).
    Timeout,
    /// The surface was lost (transient; reconfigure).
    Lost,
    /// The surface is outdated (transient; reconfigure).
    Outdated,
    /// The device is out of memory (fatal).
    OutOfMemory,
    /// An unclassified acquisition error (transient; skip).
    Other,
}

/// Load policy of a render pass.
#[derive(Clone, Copy, Debug, PartialEq, Eq, Structural)]
pub enum LoadOp {
    /// Clear the target to the fixed background color.
    ClearBackground,
    /// Keep the target's existing contents, compositing on top.
    LoadExisting,
}

/// One entry of the modeled GPU command stream. The host executes these in
/// order against the real device.
#[derive(Clone, Copy, Debug, PartialEq, Eq, Structural)]
pub enum GpuCommand {
    /// Upload texture `id` before any draw that references it.
    UploadTexture { id: u64 },
    /// Upload the current vertex, index and uniform buffers, computed for
    /// the given target size in pixels and display scale in thousandths of
    /// a pixel per point.
    UpdateBuffers { width: u32, height: u32, pixels_per_point_milli: u32 },
    /// One render pass on the frame's target: its load policy, the target
    /// size in pixels, and how many primitives it draws.
    Pass { load: LoadOp, width: u32, height: u32, draws: u64 },
    /// Free texture `id` after every pass that may reference it.
    FreeTexture { id: u64 },
}

/// A frame in progress: the acquired target's size and the command stream
/// recorded against it so far. Single-use: produced by `begin_frame`,
/// consumed by `end_frame`.
pub struct Frame {
    pub width: u32,
    pub height: u32,
    pub commands: Vec<GpuCommand>,
}

/// A resolved frame: the ordered command batch the host submits as one
/// unit, followed by presentation of the acquired texture.
pub struct FrameSubmission {
    pub width: u32,
    pub height: u32,
    pub commands: Vec<GpuCommand>,
}

/// The presentation surface's tracked state.
///
/// `configured` records whether the surface was (re)configured for the
/// current size since it was last lost; `begin_frame` must only be called
/// while it holds. At most one frame is in progress at a time.
pub struct Renderer {
    size: Extent,
    configured: bool,
    frame_open: bool,
}

impl Renderer {
    /// The current target size the surface is configured for.
    pub closed spec fn spec_size(self) -> Extent {
        self.size
    }

    /// Whether the surface configuration matches the current size.
    pub closed spec fn spec_configured(self) -> bool {
        self.configured
    }

    /// Whether a frame begun by `begin_frame` is still unresolved.
    pub closed spec fn spec_frame_open(self) -> bool {
        self.frame_open
    }

    /// The current target size.
    pub fn size(&self) -> (e: Extent)
        ensures
            e == self.spec_size(),
    {
        self.size
    }

    /// A surface configured for `size`. The host has already negotiated
    /// the device and queue and configured the real surface once.
    pub fn new(size: Extent) -> (r: Renderer)
        ensures
            r.spec_size() == size,
            r.spec_configured(),
            !r.spec_frame_open(),
    {
        Renderer { size, configured: true, frame_open: false }
    }

    /// Track a new target size and mark the surface reconfigured for it.
    /// Must be called before the next `begin_frame` after any size change.
    pub fn resize(&mut self, new_size: Extent)
        ensures
            final(self).spec_size() == new_size,
            final(self).spec_configured(),
            final(self).spec_frame_open() == old(self).spec_frame_open(),
    {
        self.size = new_size;
        self.configure_surface();
    }

    /// Mark the surface reconfigured for the current size; used to recover
    /// a lost or outdated surface without a size change.
    pub fn configure_surface(&mut self)
        ensures
            final(self).spec_size() == old(self).spec_size(),
            final(self).spec_configured(),
            final(self).spec_frame_open() == old(self).spec_frame_open(),
    {
        self.configured = true;
    }

    /// Begin a frame from one acquisition attempt, whose outcome the host
    /// reports as `outcome`.
    ///
    /// A second frame begun before the first is resolved is rejected with
    /// `AlreadyAcquired` and changes nothing. Otherwise the result follows
    /// the outcome: an acquired texture yields a frame sized to the current
    /// target with an empty command stream; a lost or outdated surface
    /// drops the configured mark (it must be reconfigured before the next
    /// frame); every other failure leaves the state unchanged.
    pub fn begin_frame(&mut self, outcome: AcquireOutcome) -> (r: Result<Frame, SurfaceError>)
        requires
            old(self).spec_configured(),
        ensures
            final(self).spec_size() == old(self).spec_size(),
            old(self).spec_frame_open() ==> {
                &&& r matches Err(e) && e == SurfaceError::AlreadyAcquired
                &&& *final(self) == *old(self)
            },
            !old(self).spec_frame_open() ==> match outcome {
                AcquireOutcome::Acquired => {
                    &&& r matches Ok(frame) && frame.width == old(self).spec_size().width
                        && frame.height == old(self).spec_size().height
                        && frame.commands@ =~= Seq::<GpuCommand>::empty()
                    &&& final(self).spec_frame_open()
                    &&& final(self).spec_configured()
                },
                AcquireOutcome::Timeout => {
                    &&& r matches Err(e) && e == SurfaceError::Timeout
                    &&& *final(self) == *old(self)
                },
                AcquireOutcome::Lost => {
                    &&& r matches Err(e) && e == SurfaceError::Lost
                    &&& !final(self).spec_configured()
                    &&& !final(self).spec_frame_open()
                },
                AcquireOutcome::Outdated => {
                    &&& r matches Err(e) && e == SurfaceError::Outdated
                    &&& !final(self).spec_configured()
                    &&& !final(self).spec_frame_open()
                },
                AcquireOutcome::OutOfMemory => {
                    &&& r matches Err(e) && e == SurfaceError::OutOfMemory
                    &&& *final(self) == *old(self)
                },
                AcquireOutcome::Other => {
                    &&& r matches Err(e) && e == SurfaceError::Other
                    &&& *final(self) == *old(self)
                },
            },
    {
        if self.frame_open {
            return Err(SurfaceError::AlreadyAcquired);
        }
        match outcome {
            AcquireOutcome::Acquired => {
                self.frame_open = true;
                Ok(Frame { width: self.size.width, height: self.size.height, commands: Vec::new() })
            },
            AcquireOutcome::Timeout => Err(SurfaceError::Timeout),
            AcquireOutcome::Lost => {
                self.configured = false;
                Err(SurfaceError::Lost)
            },
            AcquireOutcome::Outdated => {
                self.configured = false;
                Err(SurfaceError::Outdated)
            },
            AcquireOutcome::OutOfMemory => Err(SurfaceError::OutOfMemory),
            AcquireOutcome::Other => Err(SurfaceError::Other),
        }
    }

    /// Resolve the frame in progress: hand back the ordered command batch
    /// for the host to submit as one unit and then present. Must be called
    /// exactly once per successful `begin_frame`.
    pub fn end_frame(&mut self, frame: Frame) -> (s: FrameSubmission)
        requires
            old(self).spec_frame_open(),
        ensures
            s.width == frame.width,
            s.height == frame.height,
            s.commands@ == frame.commands@,
            !final(self).spec_frame_open(),
            final(self).spec_size() == old(self).spec_size(),
            final(self).spec_configured() == old(self).spec_configured(),
    {
        self.frame_open = false;
        FrameSubmission { width: frame.width, height: frame.height, commands: frame.commands }
    }

    /// Record the primary pass against the frame: clear the whole target to
    /// the fixed background color, drawing nothing itself.
    pub fn render(&mut self, frame: &mut Frame)
        ensures
            *final(self) == *old(self),
            final(frame).width == old(frame).width,
            final(frame).height == old(frame).height,
            final(frame).commands@ == old(frame).commands@.push(GpuCommand::Pass {
                load: LoadOp::ClearBackground,
                width: old(frame).width,
                height: old(frame).height,
                draws: 0,
            }),
    {
        let pass = GpuCommand::Pass {
            load: LoadOp::ClearBackground,
            width: frame.width,
            height: frame.height,
            draws: 0,
        };
        frame.commands.push(pass);
    }

    /// Whether `begin_frame` may be called: the surface is configured for
    /// the current size and no frame is in progress.
    pub open spec fn begin_frame_ready(self) -> bool {
        self.spec_configured() && !self.spec_frame_open()
    }
}

/// Law: a resize leaves the surface ready for the next frame — a
/// following `begin_frame` meets its contract and cannot fail for a stale
/// configuration, whatever size was set.
pub proof fn lemma_resize_enables_begin_frame(r0: Renderer, r1: Renderer, new_size: Extent)
    requires
        !r0.spec_frame_open(),
        r1.spec_size() == new_size,
        r1.spec_configured(),
        r1.spec_frame_open() == r0.spec_frame_open(),
    ensures
        r1.begin_frame_ready(),
{
}

} // verus!
