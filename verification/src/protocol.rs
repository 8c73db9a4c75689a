//! The vocabulary between a window and the driver that performs its native calls.
use crate::error::OpenError;
use crate::geometry::{PixelFormat, Rect};
use vstd::prelude::*;

verus! {

/// The four states a window passes through, in this order and never back.
#[derive(Clone, Copy, Debug, PartialEq, Eq, Structural)]
pub enum Lifecycle {
    /// Native resources are still being acquired.
    Uninitialized,
    /// Window, surface and context exist; the handler is not wired up yet.
    Created,
    /// Messages reach the event handler.
    Running,
    /// Everything has been released. A closed window is not reused.
    Closed,
}

/// Where a window stands in its opening sequence: each stage before
/// `Running` waits for the result of one native call.
#[derive(Clone, Copy, Debug, PartialEq, Eq, Structural)]
pub enum Stage {
    Registering,
    Sizing,
    Creating,
    AcquiringSurface,
    ChoosingFormat,
    SettingFormat,
    CreatingContext,
    Activating,
    Loading,
    Associating,
    ArmingTimer,
    Running,
    Closed,
}

impl Stage {
    pub open spec fn lifecycle(self) -> Lifecycle {
        match self {
            Stage::Registering
            | Stage::Sizing
            | Stage::Creating
            | Stage::AcquiringSurface
            | Stage::ChoosingFormat
            | Stage::SettingFormat
            | Stage::CreatingContext
            | Stage::Activating => Lifecycle::Uninitialized,
            Stage::Loading | Stage::Associating | Stage::ArmingTimer => Lifecycle::Created,
            Stage::Running => Lifecycle::Running,
            Stage::Closed => Lifecycle::Closed,
        }
    }

    /// The error reported when the call awaited in this stage fails. The
    /// calls awaited from `Loading` on cannot fail the opening, and the value
    /// given for them is never reported.
    pub open spec fn failure(self) -> OpenError {
        match self {
            Stage::Registering => OpenError::RegistrationFailed,
            Stage::Sizing | Stage::Creating => OpenError::WindowCreationFailed,
            Stage::AcquiringSurface => OpenError::SurfaceUnavailable,
            Stage::ChoosingFormat
            | Stage::SettingFormat
            | Stage::CreatingContext => OpenError::ContextCreationFailed,
            _ => OpenError::ContextActivationFailed,
        }
    }
}

/// A native call for the driver to make. Handles travel as plain machine
/// words; zero is the null handle.
#[derive(Clone, Copy, Debug, PartialEq, Eq, Structural)]
pub enum Request {
    /// Register the window's class, under the window's class name, with this
    /// class style and the dispatch callback. Answer: `Reply::Atom`.
    RegisterClass { style: u32 },
    /// Grow the client rectangle by the decorations of this window style.
    /// Answer: `Reply::Rect`.
    AdjustRect { rect: Rect, style: u32 },
    /// Create the native window, titled with the window's title.
    /// Answer: `Reply::Handle`.
    CreateWindow { class: u16, style: u32, x: i32, y: i32, width: i32, height: i32, parent: usize },
    /// Get the window's drawing surface. Answer: `Reply::Handle`.
    AcquireSurface { hwnd: usize },
    /// Find the surface's closest match to a pixel format.
    /// Answer: `Reply::Status` with the format's index.
    ChooseFormat { hdc: usize, format: PixelFormat },
    /// Fix the surface to the pixel format of this index. Answer: `Reply::Status`.
    SetFormat { hdc: usize, index: i32, format: PixelFormat },
    /// Create a graphics context on the surface. Answer: `Reply::Handle`.
    CreateContext { hdc: usize },
    /// Make the context current on the calling thread. Answer: `Reply::Status`.
    MakeCurrent { hdc: usize, context: usize },
    /// Resolve the graphics API's entry points. Any answer.
    LoadEntryPoints,
    /// Record the window as the owner of its native handle. Any answer.
    Associate { hwnd: usize },
    /// Start the recurring redraw timer. Any answer.
    ArmTimer { hwnd: usize, id: usize, period_ms: u32 },
}

/// The result of a native call, handed back by the driver.
#[derive(Clone, Copy, Debug, PartialEq, Eq, Structural)]
pub enum Reply {
    /// A class atom; zero if the class was refused.
    Atom(u16),
    /// A rectangle.
    Rect(Rect),
    /// A handle; zero if none was given.
    Handle(usize),
    /// A status or index; zero on failure.
    Status(i32),
    /// The call was made and returned nothing to decide on.
    Done,
}

impl Reply {
    /// The atom that an `Atom` reply carries; zero otherwise.
    pub open spec fn spec_atom(&self) -> u16 {
        match self {
            Reply::Atom(a) => *a,
            _ => 0,
        }
    }

    /// The handle that a `Handle` reply carries; zero otherwise.
    pub open spec fn spec_handle(&self) -> usize {
        match self {
            Reply::Handle(h) => *h,
            _ => 0,
        }
    }

    /// The status that a `Status` reply carries; zero otherwise.
    pub open spec fn spec_status(&self) -> i32 {
        match self {
            Reply::Status(s) => *s,
            _ => 0,
        }
    }

    /// The rectangle that a `Rect` reply carries.
    pub open spec fn spec_rect(&self) -> Option<Rect> {
        match self {
            Reply::Rect(r) => Some(*r),
            _ => None,
        }
    }

    #[verifier::when_used_as_spec(spec_atom)]
    pub fn atom(&self) -> (a: u16)
        ensures
            a == self.spec_atom(),
    {
        match self {
            Reply::Atom(a) => *a,
            _ => 0,
        }
    }

    #[verifier::when_used_as_spec(spec_handle)]
    pub fn handle(&self) -> (h: usize)
        ensures
            h == self.spec_handle(),
    {
        match self {
            Reply::Handle(h) => *h,
            _ => 0,
        }
    }

    #[verifier::when_used_as_spec(spec_status)]
    pub fn status(&self) -> (s: i32)
        ensures
            s == self.spec_status(),
    {
        match self {
            Reply::Status(s) => *s,
            _ => 0,
        }
    }

    #[verifier::when_used_as_spec(spec_rect)]
    pub fn rect(&self) -> (r: Option<Rect>)
        ensures
            r == self.spec_rect(),
    {
        match self {
            Reply::Rect(r) => Some(*r),
            _ => None,
        }
    }
}

/// A native resource that a window holds.
#[derive(Clone, Copy, Debug, PartialEq, Eq, Structural)]
pub enum Resource {
    Class { atom: u16 },
    NativeWindow { hwnd: usize },
    Surface { hwnd: usize, hdc: usize },
    Context { context: usize },
}

/// A native call that gives a resource back. Its result is not acted on.
#[derive(Clone, Copy, Debug, PartialEq, Eq, Structural)]
pub enum Release {
    /// Leave the calling thread without a current graphics context.
    ClearCurrent,
    DeleteContext { context: usize },
    ReleaseSurface { hwnd: usize, hdc: usize },
    DestroyWindow { hwnd: usize },
    UnregisterClass { atom: u16 },
}

/// The calls that give `resource` back. A context stops being current
/// before it is deleted.
pub open spec fn releases_of(resource: Resource) -> Seq<Release> {
    match resource {
        Resource::Class { atom } => seq![Release::UnregisterClass { atom }],
        Resource::NativeWindow { hwnd } => seq![Release::DestroyWindow { hwnd }],
        Resource::Surface { hwnd, hdc } => seq![Release::ReleaseSurface { hwnd, hdc }],
        Resource::Context { context } => seq![
            Release::ClearCurrent,
            Release::DeleteContext { context },
        ],
    }
}

/// The calls that give back every resource of `held`, which lists them in
/// the order of acquisition: the last acquired goes first, and each
/// resource is given back once.
pub open spec fn unwind(held: Seq<Resource>) -> Seq<Release>
    decreases held.len(),
{
    if held.len() == 0 {
        Seq::empty()
    } else {
        releases_of(held.last()) + unwind(held.drop_last())
    }
}

/// What a window answers when it is handed the result of a call.
#[derive(Debug, PartialEq, Eq)]
pub enum Step {
    /// Make this call next.
    Request(Request),
    /// The window is open. With `pump` set, run the message pump on the
    /// calling thread before returning to the caller.
    Opened { pump: bool },
    /// Opening failed. Make the `releases` in order; after them the window
    /// holds nothing.
    Failed { error: OpenError, releases: Vec<Release> },
    /// No call was awaited; nothing changed.
    Idle,
}

/// A `Step` with its list of releases as a sequence.
pub enum StepView {
    Request(Request),
    Opened { pump: bool },
    Failed { error: OpenError, releases: Seq<Release> },
    Idle,
}

impl View for Step {
    type V = StepView;

    open spec fn view(&self) -> StepView {
        match self {
            Step::Request(r) => StepView::Request(*r),
            Step::Opened { pump } => StepView::Opened { pump: *pump },
            Step::Failed { error, releases } => StepView::Failed {
                error: *error,
                releases: releases@,
            },
            Step::Idle => StepView::Idle,
        }
    }
}

} // verus!
