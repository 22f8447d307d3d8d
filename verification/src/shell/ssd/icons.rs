//! Button icon geometry for the title bar.
//!
//! Coordinates count half pixels, so that an icon can be centered on a pixel edge and in a pixel.

use vstd::prelude::*;

verus! {

/// One step of an outline, in half pixels.
#[derive(Debug, Clone, Copy, PartialEq, Eq, Structural)]
pub enum PathStep {
    /// Starts a new line at a point.
    MoveTo { x: i64, y: i64 },
    /// Draws a line to a point.
    LineTo { x: i64, y: i64 },
    /// Draws a line back to the start.
    Close,
}

impl PathStep {
    /// The step is drawn at, or leads to, the given point.
    pub open spec fn is_at(self, px: int, py: int) -> bool {
        match self {
            PathStep::MoveTo { x, y } => x == px && y == py,
            PathStep::LineTo { x, y } => x == px && y == py,
            PathStep::Close => false,
        }
    }
}

/// The square around a center can be written in half pixels.
pub open spec fn square_fits(cx: i64, cy: i64, half_size: i64) -> bool {
    &&& i64::MIN <= cx - half_size <= i64::MAX
    &&& i64::MIN <= cy - half_size <= i64::MAX
    &&& i64::MIN <= cx + half_size <= i64::MAX
    &&& i64::MIN <= cy + half_size <= i64::MAX
}

/// The close icon: the two diagonals of a square around a center.
pub open spec fn close_icon(cx: i64, cy: i64, half_size: i64) -> Seq<PathStep> {
    let (left, right) = ((cx - half_size) as i64, (cx + half_size) as i64);
    let (top, bottom) = ((cy - half_size) as i64, (cy + half_size) as i64);
    seq![
        PathStep::MoveTo { x: left, y: top },
        PathStep::LineTo { x: right, y: bottom },
        PathStep::MoveTo { x: right, y: top },
        PathStep::LineTo { x: left, y: bottom },
    ]
}

/// The maximize icon: the outline of a square around a center.
pub open spec fn maximize_icon(cx: i64, cy: i64, half_size: i64) -> Seq<PathStep> {
    let (left, right) = ((cx - half_size) as i64, (cx + half_size) as i64);
    let (top, bottom) = ((cy - half_size) as i64, (cy + half_size) as i64);
    seq![
        PathStep::MoveTo { x: left, y: top },
        PathStep::LineTo { x: right, y: top },
        PathStep::LineTo { x: right, y: bottom },
        PathStep::LineTo { x: left, y: bottom },
        PathStep::Close,
    ]
}

/// Close button icon: a cross centered at `(cx, cy)` with the given half-size.
pub fn close_icon_path(cx: i64, cy: i64, half_size: i64) -> (path: Vec<PathStep>)
    requires
        square_fits(cx, cy, half_size),
    ensures
        path@ == close_icon(cx, cy, half_size),
{
    let (left, right): (i64, i64) = (cx - half_size, cx + half_size);
    let (top, bottom): (i64, i64) = (cy - half_size, cy + half_size);
    let path = vec![
        PathStep::MoveTo { x: left, y: top },
        PathStep::LineTo { x: right, y: bottom },
        PathStep::MoveTo { x: right, y: top },
        PathStep::LineTo { x: left, y: bottom },
    ];
    assert(path@ =~= close_icon(cx, cy, half_size));
    path
}

/// Maximize button icon: a square outline centered at `(cx, cy)` with the given half-size.
pub fn maximize_icon_path(cx: i64, cy: i64, half_size: i64) -> (path: Vec<PathStep>)
    requires
        square_fits(cx, cy, half_size),
    ensures
        path@ == maximize_icon(cx, cy, half_size),
{
    let (left, right): (i64, i64) = (cx - half_size, cx + half_size);
    let (top, bottom): (i64, i64) = (cy - half_size, cy + half_size);
    let path = vec![
        PathStep::MoveTo { x: left, y: top },
        PathStep::LineTo { x: right, y: top },
        PathStep::LineTo { x: right, y: bottom },
        PathStep::LineTo { x: left, y: bottom },
        PathStep::Close,
    ];
    assert(path@ =~= maximize_icon(cx, cy, half_size));
    path
}

/// Both icons reach the four corners of the square around their center.
pub proof fn icons_reach_the_corners(cx: i64, cy: i64, half_size: i64, dx: int, dy: int)
    requires
        square_fits(cx, cy, half_size),
        dx == half_size || dx == -half_size,
        dy == half_size || dy == -half_size,
    ensures
        exists|i: int|
            0 <= i < 4 && (#[trigger] close_icon(cx, cy, half_size)[i]).is_at(cx + dx, cy + dy),
        exists|i: int|
            0 <= i < 4 && (#[trigger] maximize_icon(cx, cy, half_size)[i]).is_at(cx + dx, cy + dy),
{
    let cross = close_icon(cx, cy, half_size);
    let outline = maximize_icon(cx, cy, half_size);
    assert(cross[0].is_at(cx - half_size, cy - half_size));
    assert(cross[1].is_at(cx + half_size, cy + half_size));
    assert(cross[2].is_at(cx + half_size, cy - half_size));
    assert(cross[3].is_at(cx - half_size, cy + half_size));
    assert(outline[0].is_at(cx - half_size, cy - half_size));
    assert(outline[1].is_at(cx + half_size, cy - half_size));
    assert(outline[2].is_at(cx + half_size, cy + half_size));
    assert(outline[3].is_at(cx - half_size, cy + half_size));
}

/// The close icon is two lines from corner to opposite corner, and the maximize icon is one closed line
/// from corner to neighboring corner, in squares that reach equally far from their center.
pub proof fn icons_are_crosses_and_squares(cx: i64, cy: i64, half_size: i64)
    requires
        square_fits(cx, cy, half_size),
    ensures
        ({
            let cross = close_icon(cx, cy, half_size);
            let square = maximize_icon(cx, cy, half_size);
            &&& cross.len() == 4
            &&& cross[0] is MoveTo && cross[0].is_at(cx - half_size, cy - half_size)
            &&& cross[1] is LineTo && cross[1].is_at(cx + half_size, cy + half_size)
            &&& cross[2] is MoveTo && cross[2].is_at(cx + half_size, cy - half_size)
            &&& cross[3] is LineTo && cross[3].is_at(cx - half_size, cy + half_size)
            &&& square.len() == 5
            &&& square[0] is MoveTo && square[0].is_at(cx - half_size, cy - half_size)
            &&& square[1] is LineTo && square[1].is_at(cx + half_size, cy - half_size)
            &&& square[2] is LineTo && square[2].is_at(cx + half_size, cy + half_size)
            &&& square[3] is LineTo && square[3].is_at(cx - half_size, cy + half_size)
            &&& square[4] is Close
        }),
{
}

} // verus!
