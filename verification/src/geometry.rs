//! Window rectangles, style masks and the pixel format asked of a surface.
use crate::options::Parent;
use vstd::prelude::*;

verus! {

pub const WS_POPUP: u32 = 0x8000_0000;
pub const WS_CHILD: u32 = 0x4000_0000;
pub const WS_VISIBLE: u32 = 0x1000_0000;
pub const WS_CLIPSIBLINGS: u32 = 0x0400_0000;
pub const WS_CAPTION: u32 = 0x00C0_0000;
pub const WS_BORDER: u32 = 0x0080_0000;
pub const WS_SYSMENU: u32 = 0x0008_0000;
pub const WS_SIZEBOX: u32 = 0x0004_0000;
pub const WS_MINIMIZEBOX: u32 = 0x0002_0000;
pub const WS_MAXIMIZEBOX: u32 = 0x0001_0000;
pub const WS_POPUPWINDOW: u32 = WS_POPUP | WS_BORDER | WS_SYSMENU;

/// Class style: every window of the class owns its device context.
pub const CS_OWNDC: u32 = 0x0020;

/// Style mask of a decorated top-level window: popup window with caption,
/// sizing border, minimize and maximize boxes, visible, clipping siblings.
pub const TOP_LEVEL_STYLE: u32 = 0x94CF_0000;

/// Style mask of an undecorated, visible child window.
pub const CHILD_STYLE: u32 = 0x5000_0000;

/// The style mask for a window with the given placement.
pub open spec fn style_of(parent: Parent) -> u32 {
    if parent.is_child() {
        CHILD_STYLE
    } else {
        TOP_LEVEL_STYLE
    }
}

/// Composes the style mask from the individual style bits.
pub fn window_style(parent: &Parent) -> (style: u32)
    ensures
        style == style_of(*parent),
{
    if parent.child() {
        let style: u32 = WS_CHILD | WS_VISIBLE;
        assert(0x4000_0000u32 | 0x1000_0000u32 == 0x5000_0000u32) by (bit_vector);
        style
    } else {
        let style: u32 = WS_POPUPWINDOW | WS_CAPTION | WS_VISIBLE | WS_SIZEBOX | WS_MINIMIZEBOX
            | WS_MAXIMIZEBOX | WS_CLIPSIBLINGS;
        assert((0x8000_0000u32 | 0x0080_0000u32 | 0x0008_0000u32) | 0x00C0_0000u32
            | 0x1000_0000u32 | 0x0004_0000u32 | 0x0002_0000u32 | 0x0001_0000u32
            | 0x0400_0000u32 == 0x94CF_0000u32) by (bit_vector);
        style
    }
}

/// A rectangle in the window system's signed coordinates.
#[derive(Clone, Copy, Debug, PartialEq, Eq, Structural)]
pub struct Rect {
    pub left: i32,
    pub top: i32,
    pub right: i32,
    pub bottom: i32,
}

impl Rect {
    /// The horizontal extent; negative if the right edge lies left of the left.
    pub open spec fn width(self) -> int {
        self.right - self.left
    }

    /// The vertical extent; negative if the bottom edge lies above the top.
    pub open spec fn height(self) -> int {
        self.bottom - self.top
    }

    /// Both extents can be handed to the window system as signed 32-bit values.
    pub open spec fn expressible(self) -> bool {
        &&& i32::MIN <= self.width() <= i32::MAX
        &&& i32::MIN <= self.height() <= i32::MAX
    }

    /// The client rectangle of the requested size, anchored at the origin.
    pub open spec fn client_of(width: usize, height: usize) -> Rect {
        Rect { left: 0, top: 0, right: width as i32, bottom: height as i32 }
    }

    /// The client rectangle of the requested size, anchored at the origin.
    pub fn client(width: usize, height: usize) -> (r: Rect)
        requires
            width <= i32::MAX,
            height <= i32::MAX,
        ensures
            r == Rect::client_of(width, height),
            r.width() == width,
            r.height() == height,
    {
        Rect { left: 0, top: 0, right: width as i32, bottom: height as i32 }
    }

    /// Width and height of the rectangle, where the window system can express them.
    pub fn extent(&self) -> (e: Option<(i32, i32)>)
        ensures
            self.expressible() ==> e == Some((self.width() as i32, self.height() as i32)),
            !self.expressible() ==> e is None,
    {
        let w: i64 = self.right as i64 - self.left as i64;
        let h: i64 = self.bottom as i64 - self.top as i64;
        if -0x8000_0000 <= w && w <= 0x7fff_ffff && -0x8000_0000 <= h && h <= 0x7fff_ffff {
            Some((w as i32, h as i32))
        } else {
            None
        }
    }
}

pub const PFD_DOUBLEBUFFER: u32 = 0x0000_0001;
pub const PFD_DRAW_TO_WINDOW: u32 = 0x0000_0004;
pub const PFD_SUPPORT_OPENGL: u32 = 0x0000_0020;
pub const PFD_TYPE_RGBA: u8 = 0;
pub const PFD_MAIN_PLANE: u8 = 0;

/// The pixel format asked of a drawing surface. Fields not listed are zero.
#[derive(Clone, Copy, Debug, PartialEq, Eq, Structural)]
pub struct PixelFormat {
    pub version: u16,
    pub flags: u32,
    pub pixel_type: u8,
    pub color_bits: u8,
    pub depth_bits: u8,
    pub stencil_bits: u8,
    pub layer_type: u8,
}

/// Double-buffered RGBA drawn to a window through the graphics API, with
/// 32 colour bits, a 24-bit depth buffer and an 8-bit stencil buffer.
pub open spec fn wanted_format() -> PixelFormat {
    PixelFormat {
        version: 1,
        flags: 0x25,
        pixel_type: 0,
        color_bits: 32,
        depth_bits: 24,
        stencil_bits: 8,
        layer_type: 0,
    }
}

/// Composes the pixel format to ask for from its flag bits.
pub fn requested_format() -> (f: PixelFormat)
    ensures
        f == wanted_format(),
{
    let flags: u32 = PFD_DRAW_TO_WINDOW | PFD_SUPPORT_OPENGL | PFD_DOUBLEBUFFER;
    assert(0x4u32 | 0x20u32 | 0x1u32 == 0x25u32) by (bit_vector);
    PixelFormat {
        version: 1,
        flags,
        pixel_type: PFD_TYPE_RGBA,
        color_bits: 32,
        depth_bits: 24,
        stencil_bits: 8,
        layer_type: PFD_MAIN_PLANE,
    }
}

} // verus!
