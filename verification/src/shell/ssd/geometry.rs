//! Space that decorations take around a client surface.

use vstd::prelude::*;

use super::HEADER_BAR_HEIGHT;

verus! {

/// Decoration geometry offsets for decorated windows.
///
/// Borders overlay client content at the edges, so they do not reduce the client's size. The title
/// bar adds to the window's height above the client surface.
#[derive(Debug, Clone, Copy)]
pub struct DecorationGeometry {
    pub title_bar_height: i32,
    pub border_width: i32,
}

impl DecorationGeometry {
    /// Geometry of a decorated window with the given border width.
    pub fn active(border_width: i32) -> (geometry: Self)
        ensures
            geometry.title_bar_height == HEADER_BAR_HEIGHT,
            geometry.border_width == border_width,
    {
        Self { title_bar_height: HEADER_BAR_HEIGHT, border_width }
    }

    /// Geometry of an undecorated window: client-side decorations, or fullscreen.
    pub fn none() -> (geometry: Self)
        ensures
            geometry.title_bar_height == 0,
            geometry.border_width == 0,
    {
        Self { title_bar_height: 0, border_width: 0 }
    }

    /// Height consumed above the client surface.
    pub fn top_offset(&self) -> (height: i32)
        ensures
            height == self.title_bar_height,
    {
        self.title_bar_height
    }
}

} // verus!
