//! The decision-making core of a small OpenGL playground.
//!
//! Nothing in this crate talks to a window or to a graphics driver. The
//! library decides what has to be done and describes it as [`command::Command`]
//! values; a driver executes them and hands back a [`command::Reply`]. Every
//! function here is verified against a contract over the mathematical view of
//! the values it takes and returns.

pub mod camera;
pub mod command;
pub mod debug;
pub mod event;
pub mod program;
pub mod texture;
pub mod window;
