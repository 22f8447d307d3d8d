//! Decision core of the Anvil desktop compositor.

pub mod cursor;
pub mod keyboard;
pub mod pointer;
pub mod render;
pub mod repaint;
pub mod shell;
pub mod state;
pub mod text;
pub mod utils;
pub mod workspace;

use vstd::prelude::*;

verus! {

/// A window, as the event loop knows it.
pub type WindowId = u64;

/// An input seat.
pub type SeatId = u64;

/// A client surface.
pub type SurfaceId = u64;

/// A Wayland toplevel, known by its surface.
pub type ToplevelId = u64;

/// An X11 window.
pub type X11WindowId = u32;

/// An output of the compositor.
pub type OutputId = u64;

/// A connected client.
pub type ClientId = u64;

/// A workspace; the desktop is workspace 0.
pub type WorkspaceId = u32;

} // verus!
