use vstd::prelude::*;

verus! {

/// Why the surface could not hand out the next frame.
///
/// Mirrors the acquisition failures a graphics backend reports; the layer
/// that owns the device maps its own error type onto these variants before
/// asking [`classify_surface_error`] what to do.
#[derive(Clone, Copy, Debug, PartialEq, Eq, Structural)]
pub enum SurfaceIssue {
    /// The frame did not arrive in time.
    Timeout,
    /// The surface no longer matches the window and must be reconfigured.
    Outdated,
    /// The surface was lost and must be recreated.
    Lost,
    /// The device is out of memory.
    OutOfMemory,
    /// Any other acquisition failure.
    Other,
}

/// What the render loop does with a frame whose surface acquisition failed.
#[derive(Clone, Copy, Debug, PartialEq, Eq, Structural)]
pub enum FrameAction {
    /// Reconfigure the surface and try again on the next frame.
    Reconfigure,
    /// Terminate the render loop; the failure is fatal.
    Terminate,
    /// Log the failure and skip this frame; the loop continues.
    Skip,
}

/// The action the render loop owes each surface failure: a lost surface is
/// reconfigured, running out of memory ends the loop, everything else only
/// skips the frame.
pub open spec fn spec_classify_surface_error(issue: SurfaceIssue) -> FrameAction {
    match issue {
        SurfaceIssue::Lost => FrameAction::Reconfigure,
        SurfaceIssue::OutOfMemory => FrameAction::Terminate,
        _ => FrameAction::Skip,
    }
}

/// Decides how the render loop answers a failed surface acquisition.
pub fn classify_surface_error(issue: SurfaceIssue) -> (action: FrameAction)
    ensures
        action == spec_classify_surface_error(issue),
{
    match issue {
        SurfaceIssue::Lost => FrameAction::Reconfigure,
        SurfaceIssue::OutOfMemory => FrameAction::Terminate,
        SurfaceIssue::Timeout => FrameAction::Skip,
        SurfaceIssue::Outdated => FrameAction::Skip,
        SurfaceIssue::Other => FrameAction::Skip,
    }
}

/// Everything that can go wrong between opening the canvas and closing it.
///
/// The window and device failures carry the message the host reported; the
/// layer that owns those resources builds them. `ChannelClosed` is the
/// library's own condition: a draw request was posted after the render loop
/// had already terminated, so no frame will ever consume it.
#[derive(Clone, Debug, PartialEq, Eq)]
pub enum TinyPaintError {
    /// The host event loop could not be created.
    EventLoopError(String),
    /// The window could not be created.
    WindowOsError(String),
    /// The rendering surface could not be created.
    CreateSurfaceError(String),
    /// No graphics adapter answered the request.
    RequestAdapterError(String),
    /// The graphics device could not be opened.
    RequestDeviceError(String),
    /// The next frame could not be acquired from the surface.
    SurfaceError(SurfaceIssue),
    /// A draw request was posted after the render loop had exited.
    ChannelClosed,
}

} // verus!
