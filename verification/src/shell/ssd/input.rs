//! Hit-testing of decorations.

use vstd::prelude::*;

use super::HEADER_BAR_HEIGHT;
use crate::shell::grabs::ResizeEdge;
use crate::utils::Coord;

verus! {

/// Regions of a decorated window for input routing.
#[derive(Debug, Clone, Copy, PartialEq, Eq, Structural)]
pub enum DecorationHitZone {
    TitleBar,
    CloseButton,
    MaximizeButton,
    BorderTop,
    BorderBottom,
    BorderLeft,
    BorderRight,
    CornerTopLeft,
    CornerTopRight,
    CornerBottomLeft,
    CornerBottomRight,
    ClientArea,
}

/// Size of corner grab zones in logical pixels.
pub const CORNER_SIZE: i64 = 12;

/// Width of edge grab zones in logical pixels, wider than the visible border for usability.
pub const EDGE_WIDTH: i64 = 6;

/// The zone of a point above the client surface.
pub open spec fn title_bar_zone(x: Coord, y: Coord, width: int, button_width: int)
    -> DecorationHitZone {
    if y.before(EDGE_WIDTH as int) {
        if x.before(CORNER_SIZE as int) {
            DecorationHitZone::CornerTopLeft
        } else if x.after(width - CORNER_SIZE) {
            DecorationHitZone::CornerTopRight
        } else {
            DecorationHitZone::BorderTop
        }
    } else if x.at_least(width - button_width) {
        DecorationHitZone::CloseButton
    } else if x.at_least(width - 2 * button_width) {
        DecorationHitZone::MaximizeButton
    } else {
        DecorationHitZone::TitleBar
    }
}

/// The zone of a point below the title bar.
pub open spec fn body_zone(x: Coord, y: Coord, width: int, height: int) -> DecorationHitZone {
    if y.after(height - CORNER_SIZE) && x.before(CORNER_SIZE as int) {
        DecorationHitZone::CornerBottomLeft
    } else if y.after(height - CORNER_SIZE) && x.after(width - CORNER_SIZE) {
        DecorationHitZone::CornerBottomRight
    } else if x.before(EDGE_WIDTH as int) {
        DecorationHitZone::BorderLeft
    } else if x.after(width - EDGE_WIDTH) {
        DecorationHitZone::BorderRight
    } else if y.after(height - EDGE_WIDTH) {
        DecorationHitZone::BorderBottom
    } else {
        DecorationHitZone::ClientArea
    }
}

/// The zone of a point of a decorated window.
pub open spec fn zone_at(x: Coord, y: Coord, width: int, height: int, button_width: int)
    -> DecorationHitZone {
    if y.before(HEADER_BAR_HEIGHT as int) {
        title_bar_zone(x, y, width, button_width)
    } else {
        body_zone(x, y, width, height)
    }
}

/// Hit-tests a point against the decoration regions.
///
/// Coordinates are window-local: the origin is the top-left corner of the decorated window, title
/// bar included. `window_width` is the total window width, `window_height` the height of the title
/// bar and the client together, `button_width` the width of each title bar button.
pub fn hit_test(x: Coord, y: Coord, window_width: i32, window_height: i32, button_width: u32)
    -> (zone: DecorationHitZone)
    ensures
        zone == zone_at(
            x,
            y,
            window_width as int,
            window_height as int,
            button_width as int,
        ),
{
    let width: i64 = window_width as i64;
    let height: i64 = window_height as i64;
    let button: i64 = button_width as i64;
    if y.is_before(HEADER_BAR_HEIGHT as i64) {
        if x.is_before(CORNER_SIZE) && y.is_before(EDGE_WIDTH) {
            return DecorationHitZone::CornerTopLeft;
        }
        if x.is_after(width - CORNER_SIZE) && y.is_before(EDGE_WIDTH) {
            return DecorationHitZone::CornerTopRight;
        }
        if y.is_before(EDGE_WIDTH) {
            return DecorationHitZone::BorderTop;
        }
        if x.is_at_least(width - button) {
            return DecorationHitZone::CloseButton;
        }
        if x.is_at_least(width - button * 2) {
            return DecorationHitZone::MaximizeButton;
        }
        return DecorationHitZone::TitleBar;
    }
    if x.is_before(CORNER_SIZE) && y.is_after(height - CORNER_SIZE) {
        return DecorationHitZone::CornerBottomLeft;
    }
    if x.is_after(width - CORNER_SIZE) && y.is_after(height - CORNER_SIZE) {
        return DecorationHitZone::CornerBottomRight;
    }
    if x.is_before(EDGE_WIDTH) {
        return DecorationHitZone::BorderLeft;
    }
    if x.is_after(width - EDGE_WIDTH) {
        return DecorationHitZone::BorderRight;
    }
    if y.is_after(height - EDGE_WIDTH) {
        return DecorationHitZone::BorderBottom;
    }
    DecorationHitZone::ClientArea
}

/// The resize edge that a zone stands for, if dragging the zone resizes the window.
pub open spec fn edge_of_zone(zone: DecorationHitZone) -> Option<ResizeEdge> {
    match zone {
        DecorationHitZone::BorderTop => Some(ResizeEdge::Top),
        DecorationHitZone::BorderBottom => Some(ResizeEdge::Bottom),
        DecorationHitZone::BorderLeft => Some(ResizeEdge::Left),
        DecorationHitZone::BorderRight => Some(ResizeEdge::Right),
        DecorationHitZone::CornerTopLeft => Some(ResizeEdge::TopLeft),
        DecorationHitZone::CornerTopRight => Some(ResizeEdge::TopRight),
        DecorationHitZone::CornerBottomLeft => Some(ResizeEdge::BottomLeft),
        DecorationHitZone::CornerBottomRight => Some(ResizeEdge::BottomRight),
        DecorationHitZone::TitleBar => None,
        DecorationHitZone::CloseButton => None,
        DecorationHitZone::MaximizeButton => None,
        DecorationHitZone::ClientArea => None,
    }
}

/// Converts a decoration hit zone to a resize edge, if applicable.
pub fn resize_edge_for_zone(zone: DecorationHitZone) -> (edge: Option<ResizeEdge>)
    ensures
        edge == edge_of_zone(zone),
{
    match zone {
        DecorationHitZone::BorderTop => Some(ResizeEdge::Top),
        DecorationHitZone::BorderBottom => Some(ResizeEdge::Bottom),
        DecorationHitZone::BorderLeft => Some(ResizeEdge::Left),
        DecorationHitZone::BorderRight => Some(ResizeEdge::Right),
        DecorationHitZone::CornerTopLeft => Some(ResizeEdge::TopLeft),
        DecorationHitZone::CornerTopRight => Some(ResizeEdge::TopRight),
        DecorationHitZone::CornerBottomLeft => Some(ResizeEdge::BottomLeft),
        DecorationHitZone::CornerBottomRight => Some(ResizeEdge::BottomRight),
        _ => None,
    }
}

/// Buttons live in the title bar only, below the strip that resizes the window.
pub proof fn buttons_are_in_the_title_bar(
    x: Coord,
    y: Coord,
    width: int,
    height: int,
    button_width: int,
)
    ensures
        ({
            let zone = zone_at(x, y, width, height, button_width);
            zone is CloseButton || zone is MaximizeButton ==> y.before(HEADER_BAR_HEIGHT as int)
                && !y.before(EDGE_WIDTH as int)
        }),
{
}

/// The client area never reaches into the title bar or into a resize edge.
pub proof fn client_area_is_inside_the_edges(
    x: Coord,
    y: Coord,
    width: int,
    height: int,
    button_width: int,
)
    requires
        x !is Undefined,
        y !is Undefined,
        zone_at(x, y, width, height, button_width) is ClientArea,
    ensures
        y.at_least(HEADER_BAR_HEIGHT as int),
        x.at_least(EDGE_WIDTH as int),
        !x.after(width - EDGE_WIDTH),
        !y.after(height - EDGE_WIDTH),
{
}

/// Distinct zones that resize the window resize it by distinct edges.
pub proof fn resize_edges_tell_zones_apart(a: DecorationHitZone, b: DecorationHitZone)
    requires
        edge_of_zone(a) is Some,
        edge_of_zone(a) == edge_of_zone(b),
    ensures
        a == b,
{
}

/// Dragging resizes along the edges of the window: at its top a strip of 6 pixels, at its sides and
/// its bottom below the title bar strips of 6 pixels, and in the corners 12 pixels of each of the two
/// edges that meet there. Of overlapping strips, the corner comes first, then the left, the right and
/// the bottom edge.
pub proof fn edges_follow_the_pointer(
    x: Coord,
    y: Coord,
    width: int,
    height: int,
    button_width: int,
)
    ensures
        ({
            let edge = edge_of_zone(zone_at(x, y, width, height, button_width));
            let body = !y.before(32);
            let low = body && y.after(height - 12);
            let corner = low && (x.before(12) || x.after(width - 12));
            &&& edge == Some(ResizeEdge::TopLeft) <==> y.before(6) && x.before(12)
            &&& edge == Some(ResizeEdge::TopRight) <==> y.before(6) && !x.before(12) && x.after(
                width - 12,
            )
            &&& edge == Some(ResizeEdge::Top) <==> y.before(6) && !x.before(12) && !x.after(
                width - 12,
            )
            &&& edge == Some(ResizeEdge::BottomLeft) <==> low && x.before(12)
            &&& edge == Some(ResizeEdge::BottomRight) <==> low && !x.before(12) && x.after(
                width - 12,
            )
            &&& edge == Some(ResizeEdge::Left) <==> body && !corner && x.before(6)
            &&& edge == Some(ResizeEdge::Right) <==> body && !corner && !x.before(6) && x.after(
                width - 6,
            )
            &&& edge == Some(ResizeEdge::Bottom) <==> body && !corner && !x.before(6) && !x.after(
                width - 6,
            ) && y.after(height - 6)
            &&& edge != Some(ResizeEdge::NoEdge)
        }),
{
}

/// The title bar is below the strip at the top and as high as the header. Its right end is the close
/// button, and left of that, as wide again, is the maximize button.
pub proof fn buttons_follow_the_pointer(
    x: Coord,
    y: Coord,
    width: int,
    height: int,
    button_width: int,
)
    requires
        button_width >= 0,
    ensures
        ({
            let zone = zone_at(x, y, width, height, button_width);
            let bar = y.before(32) && !y.before(6);
            &&& zone is CloseButton <==> bar && x.at_least(width - button_width)
            &&& zone is MaximizeButton <==> bar && !x.at_least(width - button_width) && x.at_least(
                width - button_width - button_width,
            )
            &&& zone is TitleBar <==> bar && !x.at_least(width - button_width - button_width)
        }),
{
}

/// Everything that neither resizes the window nor belongs to the title bar is the client's.
pub proof fn the_rest_is_the_client(
    x: Coord,
    y: Coord,
    width: int,
    height: int,
    button_width: int,
)
    ensures
        zone_at(x, y, width, height, button_width) is ClientArea <==> {
            &&& !y.before(32)
            &&& !x.before(6)
            &&& !x.after(width - 6)
            &&& !y.after(height - 6)
            &&& !(y.after(height - 12) && x.before(12))
            &&& !(y.after(height - 12) && x.after(width - 12))
        },
{
}

/// The right side of a window mirrors its left side: below the title bar, a point as far from the
/// right edge as another one is from the left edge resizes by the mirrored edge.
pub proof fn sides_are_mirrored(
    x: i64,
    other: i64,
    y: Coord,
    width: int,
    height: int,
    button_width: int,
)
    requires
        other == width - x,
        width >= 24,
        !y.before(32),
    ensures
        ({
            let edge = edge_of_zone(zone_at(Coord::Whole(x), y, width, height, button_width));
            let mirror = edge_of_zone(zone_at(Coord::Whole(other), y, width, height, button_width));
            &&& edge == Some(ResizeEdge::Left) <==> mirror == Some(ResizeEdge::Right)
            &&& edge == Some(ResizeEdge::BottomLeft) <==> mirror == Some(ResizeEdge::BottomRight)
            &&& edge == Some(ResizeEdge::Bottom) <==> mirror == Some(ResizeEdge::Bottom)
            &&& edge is None <==> mirror is None
        }),
{
}

} // verus!
