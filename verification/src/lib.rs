//! The decision-making core of a minimal native windowing layer.
//!
//! Nothing in this crate talks to the operating system. A [`window::Window`] is a
//! state machine: it names the next native call to make, takes the call's
//! result back as a plain value, and decides what follows. A driver performs
//! the calls; every decision between them is taken, and verified, here.
pub mod class;
pub mod error;
pub mod geometry;
pub mod laws;
pub mod message;
pub mod model;
pub mod options;
pub mod protocol;
pub mod registry;
pub mod render;
pub mod window;
