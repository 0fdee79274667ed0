//! Window and render-surface lifecycle coordination.
//!
//! The library holds the decisions of a windowing layer that drives a GPU
//! presentation surface:
//! - `cell`: deferred and discardable resource cells;
//! - `surface`: the resolution of a surface descriptor and of the drawable size;
//! - `render`: the render-target state machine that keeps targets and command
//!   sets valid and recovers once from an out-of-date surface;
//! - `host`: which delegate callback each native application signal dispatches;
//! - `window`: window options and the native style bits they map to;
//! - `rxcb` and `x11`: the X11 protocol values and the X11 backend's decisions;
//! - `win32`: the Win32 window procedure's decisions.

pub mod cell;
pub mod host;
pub mod render;
pub mod rxcb;
pub mod surface;
pub mod win32;
pub mod window;
pub mod x11;
