//! What a caller asks for when opening a window.
use vstd::prelude::*;

verus! {

/// Where a new window is placed.
#[derive(Clone, Copy, Debug, PartialEq, Eq, Structural)]
pub enum Parent {
    /// An independent, decorated top-level window.
    NoParent,
    /// A child of the native window with this handle.
    WithParent(usize),
}

impl Parent {
    /// Whether a parent handle was supplied.
    pub open spec fn is_child(self) -> bool {
        self is WithParent
    }

    /// The parent handle handed to the window system; zero for a top-level window.
    pub open spec fn handle(self) -> usize {
        match self {
            Parent::NoParent => 0,
            Parent::WithParent(h) => h,
        }
    }

    /// Whether a parent handle was supplied.
    pub fn child(&self) -> (b: bool)
        ensures
            b == self.is_child(),
    {
        match self {
            Parent::NoParent => false,
            Parent::WithParent(_) => true,
        }
    }

    /// The parent handle handed to the window system; zero for a top-level
    /// window.
    pub fn raw_handle(&self) -> (h: usize)
        ensures
            h == self.handle(),
    {
        match self {
            Parent::NoParent => 0,
            Parent::WithParent(h) => *h,
        }
    }
}

/// The largest client extent the window system can express.
pub const MAX_EXTENT: usize = 0x7fff_ffff;

/// Title, client size and placement of a window to open.
#[derive(Debug, PartialEq, Eq)]
pub struct WindowOpenOptions {
    pub title: String,
    pub width: usize,
    pub height: usize,
    pub parent: Parent,
}

impl WindowOpenOptions {
    /// Width and height are positive and fit the window system's signed
    /// 32-bit coordinates.
    pub open spec fn valid(&self) -> bool {
        &&& 0 < self.width <= MAX_EXTENT
        &&& 0 < self.height <= MAX_EXTENT
    }

    /// Whether a window can be opened with these options.
    pub fn is_valid(&self) -> (b: bool)
        ensures
            b == self.valid(),
    {
        0 < self.width && self.width <= MAX_EXTENT && 0 < self.height && self.height
            <= MAX_EXTENT
    }
}

} // verus!
