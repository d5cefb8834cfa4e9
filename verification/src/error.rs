//! What can go wrong, and what the render loop does about it.
use vstd::prelude::*;

verus! {

/// How the acquisition of the next surface image can fail.
#[derive(Clone, Copy, Debug, PartialEq, Eq, Structural)]
pub enum SurfaceError {
    /// The image did not arrive in time.
    Timeout,
    /// The surface no longer matches the window.
    Outdated,
    /// The surface was lost.
    Lost,
    /// The device has no memory left.
    OutOfMemory,
}

/// The errors of the renderer.
#[derive(Clone, Copy, Debug, PartialEq, Eq, Structural)]
pub enum RenderError {
    /// The camera pose has a zero scale factor, so the view cannot be
    /// inverted.
    NonInvertiblePose,
    SurfaceOutdated,
    SurfaceLost,
    DeviceOutOfMemory,
    /// The texture could not be decoded.
    AssetDecodeError,
    SurfaceTimeout,
}

/// What the render loop does after an error.
#[derive(Clone, Copy, Debug, PartialEq, Eq, Structural)]
pub enum Recovery {
    /// Configure the surface anew for the current window size and try
    /// again at the next tick.
    Reconfigure,
    /// Give up this frame and try again at the next tick.
    SkipFrame,
    /// Leave the loop.
    Halt,
}

impl RenderError {
    /// The recovery that each error calls for.
    pub open spec fn recovery_spec(self) -> Recovery {
        match self {
            RenderError::SurfaceOutdated | RenderError::SurfaceLost => Recovery::Reconfigure,
            RenderError::SurfaceTimeout => Recovery::SkipFrame,
            RenderError::NonInvertiblePose
            | RenderError::DeviceOutOfMemory
            | RenderError::AssetDecodeError => Recovery::Halt,
        }
    }

    /// The error that a failed acquisition amounts to.
    pub open spec fn of_surface(error: SurfaceError) -> RenderError {
        match error {
            SurfaceError::Timeout => RenderError::SurfaceTimeout,
            SurfaceError::Outdated => RenderError::SurfaceOutdated,
            SurfaceError::Lost => RenderError::SurfaceLost,
            SurfaceError::OutOfMemory => RenderError::DeviceOutOfMemory,
        }
    }

    /// True for the errors that end the loop.
    pub open spec fn fatal(self) -> bool {
        self.recovery_spec() == Recovery::Halt
    }

    pub fn from_surface(error: SurfaceError) -> (r: RenderError)
        ensures
            r == RenderError::of_surface(error),
    {
        match error {
            SurfaceError::Timeout => RenderError::SurfaceTimeout,
            SurfaceError::Outdated => RenderError::SurfaceOutdated,
            SurfaceError::Lost => RenderError::SurfaceLost,
            SurfaceError::OutOfMemory => RenderError::DeviceOutOfMemory,
        }
    }

    pub fn recovery(&self) -> (r: Recovery)
        ensures
            r == self.recovery_spec(),
    {
        match self {
            RenderError::SurfaceOutdated => Recovery::Reconfigure,
            RenderError::SurfaceLost => Recovery::Reconfigure,
            RenderError::SurfaceTimeout => Recovery::SkipFrame,
            RenderError::NonInvertiblePose => Recovery::Halt,
            RenderError::DeviceOutOfMemory => Recovery::Halt,
            RenderError::AssetDecodeError => Recovery::Halt,
        }
    }

    pub fn is_fatal(&self) -> (r: bool)
        ensures
            r == self.fatal(),
    {
        match self.recovery() {
            Recovery::Halt => true,
            _ => false,
        }
    }
}

} // verus!
