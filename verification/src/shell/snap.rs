//! Snapping windows to halves and quarters of an output.

use vstd::prelude::*;

use super::ssd::theme::{DecorationTheme, Rgba, Single};
use super::ssd::{SolidColorBuffer, HEADER_BAR_HEIGHT};
use crate::utils::{in_i32, Coord, Point, Position, Rectangle, Size};

verus! {

/// A detected snap zone during a window move.
#[derive(Debug, Clone, Copy, PartialEq, Eq, Structural)]
pub enum SnapZone {
    LeftHalf,
    RightHalf,
    Maximize,
    TopLeftQuarter,
    TopRightQuarter,
    BottomLeftQuarter,
    BottomRightQuarter,
}

/// Bit pattern of 1, the opacity of a preview whose color is already translucent.
pub const OPAQUE: u32 = 0x3f800000;

/// Active snap preview during a window move.
#[derive(Debug, Clone, Copy, PartialEq, Eq, Structural)]
pub struct SnapPreview {
    pub zone: SnapZone,
    pub rect: Rectangle,
    pub buffer: SolidColorBuffer,
    pub opacity: Single,
}

/// The usable area of an output in global coordinates: its geometry without the exclusive zones of
/// panels. `zone` is the non-exclusive zone, relative to the output.
pub fn usable_area(zone: Rectangle, output_geo: Rectangle) -> (usable: Rectangle)
    requires
        in_i32(output_geo.loc.x + zone.loc.x),
        in_i32(output_geo.loc.y + zone.loc.y),
    ensures
        usable.loc.x == output_geo.loc.x + zone.loc.x,
        usable.loc.y == output_geo.loc.y + zone.loc.y,
        usable.size == zone.size,
{
    Rectangle::new(
        Point { x: output_geo.loc.x + zone.loc.x, y: output_geo.loc.y + zone.loc.y },
        zone.size,
    )
}

/// The pointer is at most `trigger` pixels right of the left edge.
pub open spec fn near_left(pointer: Position, usable: Rectangle, trigger: int) -> bool {
    pointer.x.truncated() <= usable.loc.x + trigger
}

/// The pointer is at most `trigger` pixels left of the right edge.
pub open spec fn near_right(pointer: Position, usable: Rectangle, trigger: int) -> bool {
    pointer.x.truncated() >= usable.right() - trigger
}

/// The pointer is at most `trigger` pixels below the top edge.
pub open spec fn near_top(pointer: Position, usable: Rectangle, trigger: int) -> bool {
    pointer.y.truncated() <= usable.loc.y + trigger
}

/// The pointer is at most `trigger` pixels above the bottom edge.
pub open spec fn near_bottom(pointer: Position, usable: Rectangle, trigger: int) -> bool {
    pointer.y.truncated() >= usable.bottom() - trigger
}

/// The snap zone of a pointer: a quarter near a corner, a half near a side, the whole area near
/// the top. Near the bottom alone there is none.
pub open spec fn snap_zone_at(pointer: Position, usable: Rectangle, trigger: int) -> Option<
    SnapZone,
> {
    let left = near_left(pointer, usable, trigger);
    let right = near_right(pointer, usable, trigger);
    if near_top(pointer, usable, trigger) {
        if left {
            Some(SnapZone::TopLeftQuarter)
        } else if right {
            Some(SnapZone::TopRightQuarter)
        } else {
            Some(SnapZone::Maximize)
        }
    } else if near_bottom(pointer, usable, trigger) {
        if left {
            Some(SnapZone::BottomLeftQuarter)
        } else if right {
            Some(SnapZone::BottomRightQuarter)
        } else {
            None
        }
    } else if left {
        Some(SnapZone::LeftHalf)
    } else if right {
        Some(SnapZone::RightHalf)
    } else {
        None
    }
}

/// Detects which snap zone the pointer is in, if any.
pub fn detect_snap_zone(pointer: Position, usable: Rectangle, trigger_distance: i32) -> (zone:
    Option<SnapZone>)
    requires
        usable.has_far_corner(),
        in_i32(usable.loc.x + trigger_distance),
        in_i32(usable.loc.y + trigger_distance),
        in_i32(usable.right() - trigger_distance),
        in_i32(usable.bottom() - trigger_distance),
    ensures
        zone == snap_zone_at(pointer, usable, trigger_distance as int),
{
    let px: i32 = pointer.x.truncate();
    let py: i32 = pointer.y.truncate();
    let left: i32 = usable.loc.x;
    let top: i32 = usable.loc.y;
    let right: i32 = usable.loc.x + usable.size.w;
    let bottom: i32 = usable.loc.y + usable.size.h;
    let near_left = px <= left + trigger_distance;
    let near_right = px >= right - trigger_distance;
    let near_top = py <= top + trigger_distance;
    let near_bottom = py >= bottom - trigger_distance;
    // Corners take priority over edges.
    if near_top && near_left {
        Some(SnapZone::TopLeftQuarter)
    } else if near_top && near_right {
        Some(SnapZone::TopRightQuarter)
    } else if near_bottom && near_left {
        Some(SnapZone::BottomLeftQuarter)
    } else if near_bottom && near_right {
        Some(SnapZone::BottomRightQuarter)
    } else if near_left {
        Some(SnapZone::LeftHalf)
    } else if near_right {
        Some(SnapZone::RightHalf)
    } else if near_top {
        Some(SnapZone::Maximize)
    } else {
        None
    }
}

/// An area whose snap zones can be written: its size is not negative, and its center is a point.
pub open spec fn can_be_snapped(usable: Rectangle) -> bool {
    &&& usable.size.w >= 0
    &&& usable.size.h >= 0
    &&& in_i32(usable.loc.x + usable.size.w / 2)
    &&& in_i32(usable.loc.y + usable.size.h / 2)
}

impl SnapZone {
    /// The zone includes the left half of the area, or a part of it.
    pub open spec fn is_left(self) -> bool {
        match self {
            SnapZone::LeftHalf => true,
            SnapZone::TopLeftQuarter => true,
            SnapZone::BottomLeftQuarter => true,
            _ => false,
        }
    }

    /// The zone includes the right half of the area, or a part of it.
    pub open spec fn is_right(self) -> bool {
        match self {
            SnapZone::RightHalf => true,
            SnapZone::TopRightQuarter => true,
            SnapZone::BottomRightQuarter => true,
            _ => false,
        }
    }

    /// The zone is a quarter at the top.
    pub open spec fn is_top(self) -> bool {
        self is TopLeftQuarter || self is TopRightQuarter
    }

    /// The zone is a quarter at the bottom.
    pub open spec fn is_bottom(self) -> bool {
        self is BottomLeftQuarter || self is BottomRightQuarter
    }

    /// The rectangle of a snap zone. The area is cut in the middle; where its size is odd, the
    /// parts on the right and at the bottom are one pixel larger.
    pub open spec fn geometry(self, usable: Rectangle) -> Rectangle {
        let half_w = usable.size.w / 2;
        let half_h = usable.size.h / 2;
        Rectangle {
            loc: Point {
                x: if self.is_right() {
                    (usable.loc.x + half_w) as i32
                } else {
                    usable.loc.x
                },
                y: if self.is_bottom() {
                    (usable.loc.y + half_h) as i32
                } else {
                    usable.loc.y
                },
            },
            size: Size {
                w: if self.is_left() {
                    half_w as i32
                } else if self.is_right() {
                    (usable.size.w - half_w) as i32
                } else {
                    usable.size.w
                },
                h: if self.is_top() {
                    half_h as i32
                } else if self.is_bottom() {
                    (usable.size.h - half_h) as i32
                } else {
                    usable.size.h
                },
            },
        }
    }
}

/// Computes the geometry of a snap zone within the usable area.
pub fn snap_zone_geometry(zone: SnapZone, usable: Rectangle) -> (rect: Rectangle)
    requires
        can_be_snapped(usable),
    ensures
        rect == zone.geometry(usable),
{
    let x: i32 = usable.loc.x;
    let y: i32 = usable.loc.y;
    let w: i32 = usable.size.w;
    let h: i32 = usable.size.h;
    let half_w: i32 = w / 2;
    let half_h: i32 = h / 2;
    match zone {
        SnapZone::LeftHalf => Rectangle::new(Point { x, y }, Size { w: half_w, h }),
        SnapZone::RightHalf => Rectangle::new(
            Point { x: x + half_w, y },
            Size { w: w - half_w, h },
        ),
        SnapZone::Maximize => Rectangle::new(Point { x, y }, Size { w, h }),
        SnapZone::TopLeftQuarter => Rectangle::new(Point { x, y }, Size { w: half_w, h: half_h }),
        SnapZone::TopRightQuarter => Rectangle::new(
            Point { x: x + half_w, y },
            Size { w: w - half_w, h: half_h },
        ),
        SnapZone::BottomLeftQuarter => Rectangle::new(
            Point { x, y: y + half_h },
            Size { w: half_w, h: h - half_h },
        ),
        SnapZone::BottomRightQuarter => Rectangle::new(
            Point { x: x + half_w, y: y + half_h },
            Size { w: w - half_w, h: h - half_h },
        ),
    }
}

/// Computes the client size for a snapped window: decorations take the height of the title bar.
pub fn snap_client_size(zone_rect: Rectangle, is_ssd: bool) -> (size: (i32, i32))
    requires
        is_ssd ==> in_i32(zone_rect.size.h - HEADER_BAR_HEIGHT),
    ensures
        size.0 == zone_rect.size.w,
        size.1 == zone_rect.size.h - if is_ssd {
            HEADER_BAR_HEIGHT as int
        } else {
            0
        },
{
    let w: i32 = zone_rect.size.w;
    let h: i32 = if is_ssd {
        zone_rect.size.h - HEADER_BAR_HEIGHT
    } else {
        zone_rect.size.h
    };
    (w, h)
}

impl SnapPreview {
    /// Creates a snap preview from a detected zone: a rectangle in the preview color of the theme,
    /// with the opacity of the theme as its alpha channel.
    pub fn new(zone: SnapZone, usable: Rectangle, theme: &DecorationTheme) -> (preview: SnapPreview)
        requires
            can_be_snapped(usable),
        ensures
            preview == (SnapPreview {
                zone,
                rect: zone.geometry(usable),
                buffer: SolidColorBuffer {
                    size: zone.geometry(usable).size,
                    color: Rgba {
                        alpha: theme.snap_preview.opacity,
                        ..theme.snap_preview.color
                    },
                },
                opacity: Single { bits: OPAQUE },
            }),
            preview.buffer.size == preview.rect.size,
            preview.buffer.color.alpha == theme.snap_preview.opacity,
            preview.buffer.color.red == theme.snap_preview.color.red,
            preview.buffer.color.green == theme.snap_preview.color.green,
            preview.buffer.color.blue == theme.snap_preview.color.blue,
            preview.opacity.bits == 0x3f80_0000,
    {
        let rect = snap_zone_geometry(zone, usable);
        let mut color = theme.snap_preview.color;
        color.alpha = theme.snap_preview.opacity;
        SnapPreview {
            zone,
            rect,
            buffer: SolidColorBuffer { size: rect.size, color },
            opacity: Single { bits: OPAQUE },
        }
    }
}

/// Every zone lies in the usable area.
pub proof fn zones_are_usable(zone: SnapZone, usable: Rectangle)
    requires
        can_be_snapped(usable),
    ensures
        usable.encloses(zone.geometry(usable)),
{
}

/// The two halves tile the usable area: each of its pixels is in exactly one of them.
pub proof fn halves_tile(usable: Rectangle, x: int, y: int)
    requires
        can_be_snapped(usable),
    ensures
        usable.covers(x, y) <==> {
            ||| SnapZone::LeftHalf.geometry(usable).covers(x, y)
            ||| SnapZone::RightHalf.geometry(usable).covers(x, y)
        },
        SnapZone::LeftHalf.geometry(usable).disjoint(SnapZone::RightHalf.geometry(usable)),
{
}

/// The upper and the lower quarter of a side tile the half of that side.
pub proof fn quarters_tile(usable: Rectangle, x: int, y: int)
    requires
        can_be_snapped(usable),
    ensures
        SnapZone::LeftHalf.geometry(usable).covers(x, y) <==> {
            ||| SnapZone::TopLeftQuarter.geometry(usable).covers(x, y)
            ||| SnapZone::BottomLeftQuarter.geometry(usable).covers(x, y)
        },
        SnapZone::RightHalf.geometry(usable).covers(x, y) <==> {
            ||| SnapZone::TopRightQuarter.geometry(usable).covers(x, y)
            ||| SnapZone::BottomRightQuarter.geometry(usable).covers(x, y)
        },
        SnapZone::TopLeftQuarter.geometry(usable).disjoint(
            SnapZone::BottomLeftQuarter.geometry(usable),
        ),
        SnapZone::TopRightQuarter.geometry(usable).disjoint(
            SnapZone::BottomRightQuarter.geometry(usable),
        ),
{
}

/// Halves and quarters differ by at most one pixel from their counterparts.
pub proof fn zones_are_even(usable: Rectangle)
    requires
        can_be_snapped(usable),
    ensures
        0 <= SnapZone::RightHalf.geometry(usable).size.w - SnapZone::LeftHalf.geometry(
            usable,
        ).size.w <= 1,
        0 <= SnapZone::BottomLeftQuarter.geometry(usable).size.h - SnapZone::TopLeftQuarter.geometry(
            usable,
        ).size.h <= 1,
{
}

/// Corners take priority over edges: near two edges that meet, the zone is a quarter.
pub proof fn corners_take_priority(pointer: Position, usable: Rectangle, trigger: int)
    requires
        near_left(pointer, usable, trigger) || near_right(pointer, usable, trigger),
        near_top(pointer, usable, trigger) || near_bottom(pointer, usable, trigger),
    ensures
        snap_zone_at(pointer, usable, trigger) matches Some(zone) && (zone.is_top()
            || zone.is_bottom()),
{
}

/// Away from the left, right and top edges no zone is detected.
pub proof fn no_zone_in_the_middle(pointer: Position, usable: Rectangle, trigger: int)
    ensures
        snap_zone_at(pointer, usable, trigger) is None <==> {
            &&& !near_left(pointer, usable, trigger)
            &&& !near_right(pointer, usable, trigger)
            &&& !near_top(pointer, usable, trigger)
        },
{
}

/// One coordinate is another one shifted by whole pixels. Both are at a pixel edge, or both are
/// between two edges on the same side of zero, where fractions are dropped in the same direction.
pub open spec fn is_shifted(from: Coord, to: Coord, shift: int) -> bool {
    match (from, to) {
        (Coord::Whole(a), Coord::Whole(b)) => {
            &&& b == a + shift
            &&& i32::MIN <= a <= i32::MAX
            &&& i32::MIN <= b <= i32::MAX
        },
        (Coord::Between(a), Coord::Between(b)) => {
            &&& b == a + shift
            &&& i32::MIN <= a < i32::MAX
            &&& i32::MIN <= b < i32::MAX
            &&& a < 0 <==> b < 0
        },
        _ => false,
    }
}

/// Snap zones move with the area: if a pointer and an area are shifted alike, the pointer stays in
/// the same zone.
pub proof fn zones_move_with_the_area(
    pointer: Position,
    usable: Rectangle,
    trigger: int,
    shifted_pointer: Position,
    shifted: Rectangle,
    dx: int,
    dy: int,
)
    requires
        is_shifted(pointer.x, shifted_pointer.x, dx),
        is_shifted(pointer.y, shifted_pointer.y, dy),
        shifted.loc.x == usable.loc.x + dx,
        shifted.loc.y == usable.loc.y + dy,
        shifted.size == usable.size,
    ensures
        snap_zone_at(shifted_pointer, shifted, trigger) == snap_zone_at(pointer, usable, trigger),
{
}

/// Zones are told by how far the pointer is from the edges of the area, in whole pixels: the corners
/// are quarters, the left and right edges are halves, and the top edge is the whole area. `left`,
/// `top`, `right` and `bottom` are the distances.
pub proof fn zones_follow_the_edges(
    x: i64,
    y: i64,
    usable: Rectangle,
    trigger: int,
    left: int,
    top: int,
    right: int,
    bottom: int,
)
    requires
        i32::MIN <= x <= i32::MAX,
        i32::MIN <= y <= i32::MAX,
        left == x - usable.loc.x,
        top == y - usable.loc.y,
        right == usable.loc.x + usable.size.w - x,
        bottom == usable.loc.y + usable.size.h - y,
    ensures
        ({
            let zone = snap_zone_at(
                Position { x: Coord::Whole(x), y: Coord::Whole(y) },
                usable,
                trigger,
            );
            let halfway = top > trigger && bottom > trigger;
            &&& zone == Some(SnapZone::TopLeftQuarter) <==> top <= trigger && left <= trigger
            &&& zone == Some(SnapZone::TopRightQuarter) <==> top <= trigger && left > trigger
                && right <= trigger
            &&& zone == Some(SnapZone::Maximize) <==> top <= trigger && left > trigger && right
                > trigger
            &&& zone == Some(SnapZone::BottomLeftQuarter) <==> top > trigger && bottom <= trigger
                && left <= trigger
            &&& zone == Some(SnapZone::BottomRightQuarter) <==> top > trigger && bottom <= trigger
                && left > trigger && right <= trigger
            &&& zone == Some(SnapZone::LeftHalf) <==> halfway && left <= trigger
            &&& zone == Some(SnapZone::RightHalf) <==> halfway && left > trigger && right <= trigger
            &&& zone is None <==> top > trigger && left > trigger && right > trigger
        }),
{
}

/// The fraction of a coordinate that is not negative makes no difference to the zone.
pub proof fn fractions_do_not_change_zones(x: i64, y: i64, usable: Rectangle, trigger: int)
    requires
        0 <= x <= i32::MAX,
        0 <= y <= i32::MAX,
    ensures
        ({
            let zone = snap_zone_at(
                Position { x: Coord::Whole(x), y: Coord::Whole(y) },
                usable,
                trigger,
            );
            &&& snap_zone_at(
                Position { x: Coord::Between(x), y: Coord::Whole(y) },
                usable,
                trigger,
            ) == zone
            &&& snap_zone_at(
                Position { x: Coord::Whole(x), y: Coord::Between(y) },
                usable,
                trigger,
            ) == zone
            &&& snap_zone_at(
                Position { x: Coord::Between(x), y: Coord::Between(y) },
                usable,
                trigger,
            ) == zone
        }),
{
}

/// A pointer in the area is in the zone that it is snapped to, as long as the edges at which zones
/// are detected are narrower than half of the area.
pub proof fn pointers_are_in_their_zones(x: i64, y: i64, usable: Rectangle, trigger: int)
    requires
        can_be_snapped(usable),
        usable.loc.x <= x < usable.loc.x + usable.size.w,
        usable.loc.y <= y < usable.loc.y + usable.size.h,
        i32::MIN <= x <= i32::MAX,
        i32::MIN <= y <= i32::MAX,
        trigger < usable.size.w / 2,
        trigger < usable.size.h / 2,
    ensures
        snap_zone_at(
            Position { x: Coord::Whole(x), y: Coord::Whole(y) },
            usable,
            trigger,
        ) matches Some(zone) ==> {
            let area = zone.geometry(usable);
            &&& area.loc.x <= x < area.loc.x + area.size.w
            &&& area.loc.y <= y < area.loc.y + area.size.h
        },
{
}

/// Zones are at the sides that they are named for, as wide and as high as the area or as a half of
/// it.
pub proof fn zones_are_on_their_sides(usable: Rectangle)
    requires
        can_be_snapped(usable),
    ensures
        SnapZone::Maximize.geometry(usable) == usable,
        ({
            let left = SnapZone::LeftHalf.geometry(usable);
            let right = SnapZone::RightHalf.geometry(usable);
            &&& left.loc == usable.loc
            &&& right.loc.y == usable.loc.y
            &&& right.loc.x + right.size.w == usable.loc.x + usable.size.w
            &&& left.size.h == usable.size.h
            &&& right.size.h == usable.size.h
            &&& left.size.w == usable.size.w / 2
            &&& left.size.w + right.size.w == usable.size.w
        }),
        ({
            let top_left = SnapZone::TopLeftQuarter.geometry(usable);
            let top_right = SnapZone::TopRightQuarter.geometry(usable);
            let bottom_left = SnapZone::BottomLeftQuarter.geometry(usable);
            let bottom_right = SnapZone::BottomRightQuarter.geometry(usable);
            &&& top_left.loc == usable.loc
            &&& top_right.loc.y == usable.loc.y
            &&& top_right.loc.x + top_right.size.w == usable.loc.x + usable.size.w
            &&& bottom_left.loc.x == usable.loc.x
            &&& bottom_left.loc.y + bottom_left.size.h == usable.loc.y + usable.size.h
            &&& bottom_right.loc.x + bottom_right.size.w == usable.loc.x + usable.size.w
            &&& bottom_right.loc.y + bottom_right.size.h == usable.loc.y + usable.size.h
            &&& top_left.size.w == usable.size.w / 2 && bottom_left.size.w == usable.size.w / 2
            &&& top_left.size.h == usable.size.h / 2 && top_right.size.h == usable.size.h / 2
            &&& top_left.size.w + top_right.size.w == usable.size.w
            &&& bottom_left.size.w + bottom_right.size.w == usable.size.w
            &&& top_left.size.h + bottom_left.size.h == usable.size.h
            &&& top_right.size.h + bottom_right.size.h == usable.size.h
        }),
{
}

} // verus!
