//! Why opening a window failed.
use vstd::prelude::*;

verus! {

/// The site at which opening a window failed.
#[derive(Clone, Copy, Debug, PartialEq, Eq, Structural)]
pub enum OpenError {
    /// The window class was refused.
    RegistrationFailed,
    /// The native window could not be created with the computed geometry.
    WindowCreationFailed,
    /// The window gave no drawing surface.
    SurfaceUnavailable,
    /// No suitable pixel format was accepted, or no graphics context was created.
    ContextCreationFailed,
    /// The graphics context could not be made current on the calling thread.
    ContextActivationFailed,
}

impl OpenError {
    /// The text shown to the user for this failure.
    pub open spec fn text(self) -> Seq<char> {
        match self {
            OpenError::RegistrationFailed => "window class registration failed"@,
            OpenError::WindowCreationFailed => "window creation failed"@,
            OpenError::SurfaceUnavailable => "drawing surface unavailable"@,
            OpenError::ContextCreationFailed => "graphics context creation failed"@,
            OpenError::ContextActivationFailed => "graphics context activation failed"@,
        }
    }

    /// A short message fit for an error dialog.
    pub fn message(&self) -> (s: &'static str)
        ensures
            s@ == self.text(),
    {
        match self {
            OpenError::RegistrationFailed => "window class registration failed",
            OpenError::WindowCreationFailed => "window creation failed",
            OpenError::SurfaceUnavailable => "drawing surface unavailable",
            OpenError::ContextCreationFailed => "graphics context creation failed",
            OpenError::ContextActivationFailed => "graphics context activation failed",
        }
    }
}

} // verus!
