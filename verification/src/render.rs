//! What a window draws: frames cleared to the window's colour.
use vstd::prelude::*;

verus! {

/// Channel values are held in thousandths, so that a channel of `300`
/// stands for an intensity of 0.3.
pub const CHANNEL_SCALE: i32 = 1000;

/// The bit that selects the colour buffer in a clear command.
pub const COLOR_BUFFER_BIT: u32 = 0x4000;

/// A colour in thousandths per channel. Channels are not clamped: the
/// graphics API does that when the colour is used.
#[derive(Clone, Copy, Debug, PartialEq, Eq, Structural)]
pub struct Color {
    pub r: i32,
    pub g: i32,
    pub b: i32,
}

/// The colour of a window that no pointer has moved over yet.
pub open spec fn initial_color() -> Color {
    Color { r: 300, g: 800, b: 300 }
}

/// The colour after the pointer moved to `(x, y)`, in window coordinates:
/// red follows `x`, green follows `y`, both divided by the channel scale;
/// blue stays.
pub open spec fn moved_color(c: Color, x: i32, y: i32) -> Color {
    Color { r: x, g: y, b: c.b }
}

/// A drawing call for the driver to make on the current graphics context.
#[derive(Clone, Copy, Debug, PartialEq, Eq, Structural)]
pub enum DrawCommand {
    /// Set the clear colour; channels and alpha are in thousandths.
    ClearColor { r: i32, g: i32, b: i32, a: i32 },
    /// Clear the buffers that `mask` selects to the clear colour.
    Clear { mask: u32 },
    /// Present the drawing surface by swapping its buffers.
    SwapBuffers { hdc: usize },
}

/// The calls that draw one frame: set `color` as the clear colour, fully
/// opaque, clear the colour buffer to it, then present `surface`.
pub open spec fn frame_of(color: Color, surface: usize) -> Seq<DrawCommand> {
    seq![
        DrawCommand::ClearColor { r: color.r, g: color.g, b: color.b, a: CHANNEL_SCALE },
        DrawCommand::Clear { mask: COLOR_BUFFER_BIT },
        DrawCommand::SwapBuffers { hdc: surface },
    ]
}

} // verus!
