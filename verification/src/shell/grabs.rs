//! Interactive moves and resizes.

use vstd::prelude::*;

verus! {

/// The edges of a window that a resize drags.
#[derive(Debug, Clone, Copy, PartialEq, Eq, Structural)]
pub enum ResizeEdge {
    NoEdge,
    Top,
    Bottom,
    Left,
    TopLeft,
    BottomLeft,
    Right,
    TopRight,
    BottomRight,
}

impl ResizeEdge {
    /// The top edge is dragged.
    pub open spec fn drags_top(self) -> bool {
        self is Top || self is TopLeft || self is TopRight
    }

    /// The left edge is dragged.
    pub open spec fn drags_left(self) -> bool {
        self is Left || self is TopLeft || self is BottomLeft
    }

    pub fn includes_top(self) -> (result: bool)
        ensures
            result == self.drags_top(),
    {
        matches!(self, ResizeEdge::Top | ResizeEdge::TopLeft | ResizeEdge::TopRight)
    }

    pub fn includes_left(self) -> (result: bool)
        ensures
            result == self.drags_left(),
    {
        matches!(self, ResizeEdge::Left | ResizeEdge::TopLeft | ResizeEdge::BottomLeft)
    }
}

/// Each edge and corner drags what it is named for.
pub proof fn edges_drag_what_they_name()
    ensures
        ResizeEdge::Top.drags_top() && !ResizeEdge::Top.drags_left(),
        ResizeEdge::Left.drags_left() && !ResizeEdge::Left.drags_top(),
        ResizeEdge::TopLeft.drags_top() && ResizeEdge::TopLeft.drags_left(),
        ResizeEdge::TopRight.drags_top() && !ResizeEdge::TopRight.drags_left(),
        ResizeEdge::BottomLeft.drags_left() && !ResizeEdge::BottomLeft.drags_top(),
        !ResizeEdge::Right.drags_top() && !ResizeEdge::Right.drags_left(),
        !ResizeEdge::Bottom.drags_top() && !ResizeEdge::Bottom.drags_left(),
        !ResizeEdge::BottomRight.drags_top() && !ResizeEdge::BottomRight.drags_left(),
        !ResizeEdge::NoEdge.drags_top() && !ResizeEdge::NoEdge.drags_left(),
{
}

} // verus!
