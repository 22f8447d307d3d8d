//! Logical-space geometry: points, sizes, rectangles and pointer coordinates.

use vstd::prelude::*;

verus! {

/// Whether a mathematical integer is a value of `i32`.
pub open spec fn in_i32(value: int) -> bool {
    i32::MIN <= value <= i32::MAX
}

pub open spec fn min_of(a: int, b: int) -> int {
    if a <= b {
        a
    } else {
        b
    }
}

pub open spec fn max_of(a: int, b: int) -> int {
    if a >= b {
        a
    } else {
        b
    }
}

/// `value`, or the nearest end of the range of `i32`.
pub open spec fn saturated(value: int) -> int {
    max_of(i32::MIN as int, min_of(i32::MAX as int, value))
}

fn saturate(value: i64) -> (held: i32)
    ensures
        held == saturated(value as int),
{
    if value > i32::MAX as i64 {
        i32::MAX
    } else if value < i32::MIN as i64 {
        i32::MIN
    } else {
        value as i32
    }
}

/// The place of the first element from `start` on that passes a test, if one does.
pub open spec fn first_from<T>(list: Seq<T>, test: spec_fn(T) -> bool, start: int) -> Option<int>
    decreases list.len() - start,
{
    if start >= list.len() {
        None
    } else if test(list[start]) {
        Some(start)
    } else {
        first_from(list, test, start + 1)
    }
}

/// The place of the first element of a list that passes a test, if one does.
pub open spec fn first_where<T>(list: Seq<T>, test: spec_fn(T) -> bool) -> Option<int> {
    first_from(list, test, 0)
}

/// The first element that passes a test does pass it and has none before it that does; where there
/// is no first one, none passes.
pub proof fn first_passes<T>(list: Seq<T>, test: spec_fn(T) -> bool, start: int)
    requires
        start >= 0,
    ensures
        match first_from(list, test, start) {
            Some(i) => {
                &&& start <= i < list.len()
                &&& test(list[i])
                &&& forall|j: int| start <= j < i ==> !test(#[trigger] list[j])
            },
            None => forall|j: int| start <= j < list.len() ==> !test(#[trigger] list[j]),
        },
    decreases list.len() - start,
{
    if start < list.len() && !test(list[start]) {
        first_passes(list, test, start + 1);
    }
}

/// A point on the whole-pixel grid.
#[derive(Debug, Clone, Copy, PartialEq, Eq, Structural)]
pub struct Point {
    pub x: i32,
    pub y: i32,
}

impl Point {
    /// The point moved by `by`, held within the grid.
    pub open spec fn moved(self, by: Point) -> Point {
        Point { x: saturated(self.x + by.x) as i32, y: saturated(self.y + by.y) as i32 }
    }

    /// The point seen from `origin`, held within the grid.
    pub open spec fn seen_from(self, origin: Point) -> Point {
        Point { x: saturated(self.x - origin.x) as i32, y: saturated(self.y - origin.y) as i32 }
    }

    /// Moves the point by `by`, saturating at the ends of the grid.
    pub fn plus(self, by: Point) -> (moved: Point)
        ensures
            moved == self.moved(by),
    {
        Point {
            x: saturate(self.x as i64 + by.x as i64),
            y: saturate(self.y as i64 + by.y as i64),
        }
    }

    /// Gives the point seen from `origin`, saturating at the ends of the grid.
    pub fn minus(self, origin: Point) -> (moved: Point)
        ensures
            moved == self.seen_from(origin),
    {
        Point {
            x: saturate(self.x as i64 - origin.x as i64),
            y: saturate(self.y as i64 - origin.y as i64),
        }
    }
}

/// A width and a height.
#[derive(Debug, Clone, Copy, PartialEq, Eq, Structural)]
pub struct Size {
    pub w: i32,
    pub h: i32,
}

/// An axis-aligned rectangle: its top-left corner and its size.
#[derive(Debug, Clone, Copy, PartialEq, Eq, Structural)]
pub struct Rectangle {
    pub loc: Point,
    pub size: Size,
}

impl Rectangle {
    /// First column after the rectangle.
    pub open spec fn right(self) -> int {
        self.loc.x + self.size.w
    }

    /// First row after the rectangle.
    pub open spec fn bottom(self) -> int {
        self.loc.y + self.size.h
    }

    /// The far corner is a point of the grid.
    pub open spec fn has_far_corner(self) -> bool {
        in_i32(self.right()) && in_i32(self.bottom())
    }

    /// Whether the pixel at `(x, y)` belongs to the rectangle.
    pub open spec fn covers(self, x: int, y: int) -> bool {
        &&& self.loc.x <= x < self.right()
        &&& self.loc.y <= y < self.bottom()
    }

    /// No pixel belongs to both rectangles.
    pub open spec fn disjoint(self, other: Rectangle) -> bool {
        forall|x: int, y: int| !(#[trigger] self.covers(x, y) && other.covers(x, y))
    }

    /// Every pixel of `other` belongs to this rectangle.
    pub open spec fn encloses(self, other: Rectangle) -> bool {
        forall|x: int, y: int| #[trigger] other.covers(x, y) ==> self.covers(x, y)
    }

    pub fn new(loc: Point, size: Size) -> (rectangle: Rectangle)
        ensures
            rectangle.loc == loc,
            rectangle.size == size,
    {
        Rectangle { loc, size }
    }

    /// The far corner, held within the grid.
    pub open spec fn far_corner(self) -> Point {
        Point { x: saturated(self.right()) as i32, y: saturated(self.bottom()) as i32 }
    }

    /// Leftmost of the corners of two rectangles.
    pub open spec fn joint_left(self, other: Rectangle) -> int {
        min_of(
            min_of(self.loc.x as int, self.far_corner().x as int),
            min_of(other.loc.x as int, other.far_corner().x as int),
        )
    }

    /// Rightmost of the corners of two rectangles.
    pub open spec fn joint_right(self, other: Rectangle) -> int {
        max_of(
            max_of(self.loc.x as int, self.far_corner().x as int),
            max_of(other.loc.x as int, other.far_corner().x as int),
        )
    }

    /// Topmost of the corners of two rectangles.
    pub open spec fn joint_top(self, other: Rectangle) -> int {
        min_of(
            min_of(self.loc.y as int, self.far_corner().y as int),
            min_of(other.loc.y as int, other.far_corner().y as int),
        )
    }

    /// Bottommost of the corners of two rectangles.
    pub open spec fn joint_bottom(self, other: Rectangle) -> int {
        max_of(
            max_of(self.loc.y as int, self.far_corner().y as int),
            max_of(other.loc.y as int, other.far_corner().y as int),
        )
    }

    /// The extent of the two rectangles together can be written as a size.
    pub open spec fn mergeable(self, other: Rectangle) -> bool {
        &&& self.has_far_corner()
        &&& other.has_far_corner()
        &&& in_i32(self.joint_right(other) - self.joint_left(other))
        &&& in_i32(self.joint_bottom(other) - self.joint_top(other))
    }

    /// The bounding box of the corners of two rectangles, its size held within the grid.
    pub open spec fn merged(self, other: Rectangle) -> Rectangle {
        Rectangle {
            loc: Point { x: self.joint_left(other) as i32, y: self.joint_top(other) as i32 },
            size: Size {
                w: saturated(self.joint_right(other) - self.joint_left(other)) as i32,
                h: saturated(self.joint_bottom(other) - self.joint_top(other)) as i32,
            },
        }
    }

    /// Merges two rectangles into the smallest one that contains both.
    pub fn merge(self, other: Rectangle) -> (merged: Rectangle)
        ensures
            merged == self.merged(other),
    {
        let own = self.loc.plus(Point { x: self.size.w, y: self.size.h });
        let far = other.loc.plus(Point { x: other.size.w, y: other.size.h });
        let left: i32 = lesser(lesser(self.loc.x, own.x), lesser(other.loc.x, far.x));
        let right: i32 = greater(greater(self.loc.x, own.x), greater(other.loc.x, far.x));
        let top: i32 = lesser(lesser(self.loc.y, own.y), lesser(other.loc.y, far.y));
        let bottom: i32 = greater(greater(self.loc.y, own.y), greater(other.loc.y, far.y));
        let extent = Point { x: right, y: bottom }.minus(Point { x: left, y: top });
        Rectangle { loc: Point { x: left, y: top }, size: Size { w: extent.x, h: extent.y } }
    }

    /// Neither side of the rectangle is zero.
    pub open spec fn has_area(self) -> bool {
        self.size.w != 0 && self.size.h != 0
    }

    pub fn is_empty(self) -> (empty: bool)
        ensures
            empty == !self.has_area(),
    {
        self.size.w == 0 || self.size.h == 0
    }
}

fn lesser(a: i32, b: i32) -> (least: i32)
    ensures
        least == min_of(a as int, b as int),
{
    if a <= b {
        a
    } else {
        b
    }
}

fn greater(a: i32, b: i32) -> (greatest: i32)
    ensures
        greatest == max_of(a as int, b as int),
{
    if a >= b {
        a
    } else {
        b
    }
}

/// A merged rectangle covers everything that either of the two covers.
pub proof fn merge_encloses_both(a: Rectangle, b: Rectangle)
    requires
        a.mergeable(b),
    ensures
        a.merged(b).encloses(a),
        a.merged(b).encloses(b),
{
}

/// No rectangle that covers both of two non-empty rectangles is smaller than their merge.
pub proof fn merge_is_smallest(a: Rectangle, b: Rectangle, other: Rectangle)
    requires
        a.mergeable(b),
        a.size.w > 0 && a.size.h > 0,
        b.size.w > 0 && b.size.h > 0,
        other.encloses(a),
        other.encloses(b),
    ensures
        other.encloses(a.merged(b)),
{
    assert(other.covers(a.loc.x as int, a.loc.y as int)) by {
        assert(a.covers(a.loc.x as int, a.loc.y as int));
    }
    assert(other.covers(a.right() - 1, a.bottom() - 1)) by {
        assert(a.covers(a.right() - 1, a.bottom() - 1));
    }
    assert(other.covers(b.loc.x as int, b.loc.y as int)) by {
        assert(b.covers(b.loc.x as int, b.loc.y as int));
    }
    assert(other.covers(b.right() - 1, b.bottom() - 1)) by {
        assert(b.covers(b.right() - 1, b.bottom() - 1));
    }
}

/// The order in which two rectangles are merged does not matter.
pub proof fn merge_is_commutative(a: Rectangle, b: Rectangle)
    ensures
        a.merged(b) == b.merged(a),
        a.mergeable(b) == b.mergeable(a),
{
}

/// A pointer coordinate, as far as comparisons with whole pixels can tell.
///
/// Decorations, snap zones and input regions all end at whole pixels, so what they need to know of a
/// coordinate is which pixel it falls in and whether it lies exactly on that pixel's edge. A
/// coordinate whose pixel is out of range is held at the nearest end of the range.
#[derive(Debug, Clone, Copy, PartialEq, Eq, Structural)]
pub enum Coord {
    /// Exactly at a whole number of pixels.
    Whole(i64),
    /// Strictly between this pixel edge and the next.
    Between(i64),
    /// Not a number: smaller than nothing, greater than nothing.
    Undefined,
}

impl Coord {
    /// Twice the coordinate, rounded to a whole number towards the middle of its pixel.
    ///
    /// The coordinate compares with a whole number `n` as this number compares with `2 * n`.
    pub open spec fn halves(self) -> int {
        match self {
            Coord::Whole(n) => 2 * n,
            Coord::Between(n) => 2 * n + 1,
            Coord::Undefined => 0,
        }
    }

    /// The coordinate is less than `n`.
    pub open spec fn before(self, n: int) -> bool {
        self !is Undefined && self.halves() < 2 * n
    }

    /// The coordinate is greater than `n`.
    pub open spec fn after(self, n: int) -> bool {
        self !is Undefined && self.halves() > 2 * n
    }

    /// The coordinate is `n` or greater.
    pub open spec fn at_least(self, n: int) -> bool {
        self !is Undefined && self.halves() >= 2 * n
    }

    /// The coordinate without its fraction: rounded towards zero, held within `i32`, and zero when
    /// it is undefined.
    pub open spec fn truncated(self) -> int {
        let whole = match self {
            Coord::Whole(n) => n as int,
            Coord::Between(n) => if n < 0 {
                n + 1
            } else {
                n as int
            },
            Coord::Undefined => 0,
        };
        saturated(whole)
    }

    pub fn is_before(self, n: i64) -> (result: bool)
        ensures
            result == self.before(n as int),
    {
        match self {
            Coord::Whole(own) => own < n,
            Coord::Between(own) => own < n,
            Coord::Undefined => false,
        }
    }

    pub fn is_after(self, n: i64) -> (result: bool)
        ensures
            result == self.after(n as int),
    {
        match self {
            Coord::Whole(own) => own > n,
            Coord::Between(own) => own >= n,
            Coord::Undefined => false,
        }
    }

    pub fn is_at_least(self, n: i64) -> (result: bool)
        ensures
            result == self.at_least(n as int),
    {
        match self {
            Coord::Whole(own) => own >= n,
            Coord::Between(own) => own >= n,
            Coord::Undefined => false,
        }
    }

    pub fn truncate(self) -> (whole: i32)
        ensures
            whole == self.truncated(),
    {
        let whole: i64 = match self {
            Coord::Whole(n) => n,
            Coord::Between(n) => if n < 0 {
                n + 1
            } else {
                n
            },
            Coord::Undefined => 0,
        };
        saturate(whole)
    }

    /// The coordinate seen from `origin`; a pixel out of range is held at the nearest end.
    pub open spec fn seen_from(self, origin: int) -> Coord {
        match self {
            Coord::Whole(n) => Coord::Whole(held_pixel(n - origin) as i64),
            Coord::Between(n) => Coord::Between(held_pixel(n - origin) as i64),
            Coord::Undefined => Coord::Undefined,
        }
    }

    /// The coordinate seen from `origin`.
    pub fn minus(self, origin: i32) -> (seen: Coord)
        ensures
            seen == self.seen_from(origin as int),
    {
        match self {
            Coord::Whole(n) => Coord::Whole(pixel_minus(n, origin)),
            Coord::Between(n) => Coord::Between(pixel_minus(n, origin)),
            Coord::Undefined => Coord::Undefined,
        }
    }
}

/// `pixel`, or the nearest end of the range of pixels.
pub open spec fn held_pixel(pixel: int) -> int {
    max_of(i64::MIN as int, min_of(i64::MAX as int, pixel))
}

fn pixel_minus(pixel: i64, origin: i32) -> (seen: i64)
    ensures
        seen == held_pixel(pixel - origin),
{
    match pixel.checked_sub(origin as i64) {
        Some(seen) => seen,
        None => if origin < 0 {
            i64::MAX
        } else {
            i64::MIN
        },
    }
}

/// A defined coordinate is before a whole number, or at least that number, and never both.
pub proof fn coordinates_are_ordered(coord: Coord, n: int)
    requires
        coord !is Undefined,
    ensures
        coord.before(n) != coord.at_least(n),
        coord.after(n) ==> coord.at_least(n),
        coord.at_least(n + 1) ==> coord.after(n),
{
}

/// A pointer position in logical space.
#[derive(Debug, Clone, Copy, PartialEq, Eq, Structural)]
pub struct Position {
    pub x: Coord,
    pub y: Coord,
}

/// A protocol serial number.
///
/// Serials count up and wrap around, so which of two is newer depends on how far apart they are.
#[derive(Debug, Clone, Copy, PartialEq, Eq, Structural)]
pub struct Serial {
    pub value: u32,
}

impl Serial {
    /// The serial was issued after `other`, or is the same: its number is not smaller, unless the
    /// two are so far apart that the numbers wrapped around in between.
    pub open spec fn no_older_than(self, other: Serial) -> bool {
        let distance = max_of(self.value - other.value, other.value - self.value);
        if distance < u32::MAX / 2 {
            self.value >= other.value
        } else {
            self.value <= other.value
        }
    }

    pub fn is_no_older_than(self, other: Serial) -> (result: bool)
        ensures
            result == self.no_older_than(other),
    {
        let distance: u32 = if self.value > other.value {
            self.value - other.value
        } else {
            other.value - self.value
        };
        if distance < u32::MAX / 2 {
            self.value >= other.value
        } else {
            self.value <= other.value
        }
    }
}

/// A serial that was issued later is no older, also where the numbers wrapped around in between,
/// as long as fewer than half of all numbers were issued.
pub proof fn later_serials_are_newer(earlier: Serial, later: Serial, issued: int)
    requires
        0 <= issued < u32::MAX / 2,
        later.value == (earlier.value + issued) % 0x1_0000_0000,
    ensures
        later.no_older_than(earlier),
        issued > 0 ==> !earlier.no_older_than(later),
{
}

/// `value` wrapped into `u32`, as a cast of a negative `i32` is.
pub open spec fn wrapped_u32(value: i32) -> int {
    if value < 0 {
        value + 0x1_0000_0000
    } else {
        value as int
    }
}

/// Casts an `i32` to `u32`, wrapping negative values.
pub fn cast_u32(value: i32) -> (cast: u32)
    ensures
        cast == wrapped_u32(value),
{
    assert(value < 0 ==> (value as u32) == value + 0x1_0000_0000) by (bit_vector);
    value as u32
}

/// `value` wrapped into `i32`, as a cast of a large `u32` is.
pub open spec fn wrapped_i32(value: u32) -> int {
    if value > i32::MAX {
        value - 0x1_0000_0000
    } else {
        value as int
    }
}

/// Casts a `u32` to `i32`, wrapping values out of range.
pub fn cast_i32(value: u32) -> (cast: i32)
    ensures
        cast == wrapped_i32(value),
{
    assert(value > 0x7fff_ffff ==> (value as i32) == value - 0x1_0000_0000) by (bit_vector);
    value as i32
}

/// Moving a point adds to both of its coordinates, and seeing it from an origin takes away from both;
/// a coordinate that leaves the grid stays at the end where it left.
pub proof fn points_move_by_coordinates(point: Point, by: Point)
    ensures
        i32::MIN <= point.x + by.x <= i32::MAX ==> point.moved(by).x == point.x + by.x,
        point.x + by.x > i32::MAX ==> point.moved(by).x == i32::MAX,
        point.x + by.x < i32::MIN ==> point.moved(by).x == i32::MIN,
        i32::MIN <= point.y + by.y <= i32::MAX ==> point.moved(by).y == point.y + by.y,
        point.y + by.y > i32::MAX ==> point.moved(by).y == i32::MAX,
        point.y + by.y < i32::MIN ==> point.moved(by).y == i32::MIN,
        i32::MIN <= point.x - by.x <= i32::MAX ==> point.seen_from(by).x == point.x - by.x,
        point.x - by.x > i32::MAX ==> point.seen_from(by).x == i32::MAX,
        point.x - by.x < i32::MIN ==> point.seen_from(by).x == i32::MIN,
        i32::MIN <= point.y - by.y <= i32::MAX ==> point.seen_from(by).y == point.y - by.y,
        point.y - by.y > i32::MAX ==> point.seen_from(by).y == i32::MAX,
        point.y - by.y < i32::MIN ==> point.seen_from(by).y == i32::MIN,
{
}

/// A merge of two rectangles has the leftmost left edge, the topmost top edge, the rightmost right
/// edge and the bottommost bottom edge of the two.
pub proof fn merges_have_the_outermost_edges(a: Rectangle, b: Rectangle)
    requires
        a.size.w >= 0 && a.size.h >= 0 && b.size.w >= 0 && b.size.h >= 0,
        a.loc.x + a.size.w <= i32::MAX && a.loc.y + a.size.h <= i32::MAX,
        b.loc.x + b.size.w <= i32::MAX && b.loc.y + b.size.h <= i32::MAX,
        a.loc.x + a.size.w - b.loc.x <= i32::MAX && b.loc.x + b.size.w - a.loc.x <= i32::MAX,
        a.loc.y + a.size.h - b.loc.y <= i32::MAX && b.loc.y + b.size.h - a.loc.y <= i32::MAX,
    ensures
        ({
            let joint = a.merged(b);
            &&& joint.loc.x <= a.loc.x && joint.loc.x <= b.loc.x
            &&& joint.loc.x == a.loc.x || joint.loc.x == b.loc.x
            &&& joint.loc.y <= a.loc.y && joint.loc.y <= b.loc.y
            &&& joint.loc.y == a.loc.y || joint.loc.y == b.loc.y
            &&& joint.loc.x + joint.size.w >= a.loc.x + a.size.w
            &&& joint.loc.x + joint.size.w >= b.loc.x + b.size.w
            &&& joint.loc.x + joint.size.w == a.loc.x + a.size.w || joint.loc.x + joint.size.w
                == b.loc.x + b.size.w
            &&& joint.loc.y + joint.size.h >= a.loc.y + a.size.h
            &&& joint.loc.y + joint.size.h >= b.loc.y + b.size.h
            &&& joint.loc.y + joint.size.h == a.loc.y + a.size.h || joint.loc.y + joint.size.h
                == b.loc.y + b.size.h
        }),
{
}

/// A rectangle merged with itself stays as it is.
pub proof fn merges_are_idempotent(a: Rectangle)
    requires
        a.size.w >= 0 && a.size.h >= 0,
        a.loc.x + a.size.w <= i32::MAX && a.loc.y + a.size.h <= i32::MAX,
    ensures
        a.merged(a) == a,
{
}

/// A coordinate at a pixel edge compares as that number does. One between an edge and the next is
/// greater than the edge and less than the next. An undefined one compares with nothing.
pub proof fn coordinates_compare_with_edges(pixel: i64, n: int)
    ensures
        Coord::Whole(pixel).before(n) <==> pixel < n,
        Coord::Whole(pixel).after(n) <==> pixel > n,
        Coord::Whole(pixel).at_least(n) <==> pixel >= n,
        Coord::Between(pixel).before(n) <==> pixel + 1 <= n,
        Coord::Between(pixel).after(n) <==> pixel >= n,
        Coord::Between(pixel).at_least(n) <==> pixel >= n,
        !Coord::Undefined.before(n) && !Coord::Undefined.after(n) && !Coord::Undefined.at_least(n),
{
}

/// Truncating drops the fraction: a coordinate that is not negative goes down to its pixel edge, a
/// negative one up to the next. What does not fit stays at the nearest end, and what is undefined
/// becomes zero.
pub proof fn truncation_drops_fractions(pixel: i64)
    ensures
        i32::MIN <= pixel <= i32::MAX ==> Coord::Whole(pixel).truncated() == pixel,
        0 <= pixel <= i32::MAX ==> Coord::Between(pixel).truncated() == pixel,
        i32::MIN <= pixel < 0 ==> Coord::Between(pixel).truncated() == pixel + 1,
        pixel > i32::MAX ==> Coord::Whole(pixel).truncated() == i32::MAX
            && Coord::Between(pixel).truncated() == i32::MAX,
        pixel < i32::MIN ==> Coord::Whole(pixel).truncated() == i32::MIN
            && Coord::Between(pixel).truncated() == i32::MIN,
        Coord::Undefined.truncated() == 0,
{
}

/// Seeing a coordinate from an origin shifts it and keeps its fraction: it compares with a number as
/// the coordinate itself compares with that number shifted back.
pub proof fn coordinates_shift(coord: Coord, origin: int, n: int)
    requires
        coord matches Coord::Whole(pixel) ==> i64::MIN <= pixel - origin <= i64::MAX,
        coord matches Coord::Between(pixel) ==> i64::MIN <= pixel - origin <= i64::MAX,
    ensures
        coord.seen_from(origin).before(n) == coord.before(n + origin),
        coord.seen_from(origin).after(n) == coord.after(n + origin),
        coord.seen_from(origin).at_least(n) == coord.at_least(n + origin),
        coord.seen_from(origin) is Whole <==> coord is Whole,
        coord.seen_from(origin) is Undefined <==> coord is Undefined,
{
}

/// Casts between signed and unsigned numbers keep the number modulo 2^32, and undo each other.
pub proof fn casts_keep_numbers_modulo(signed: i32, unsigned: u32)
    ensures
        0 <= wrapped_u32(signed) < 0x1_0000_0000,
        (wrapped_u32(signed) - signed) % 0x1_0000_0000 == 0,
        i32::MIN <= wrapped_i32(unsigned) <= i32::MAX,
        (unsigned - wrapped_i32(unsigned)) % 0x1_0000_0000 == 0,
        wrapped_i32(wrapped_u32(signed) as u32) == signed,
        wrapped_u32(wrapped_i32(unsigned) as i32) == unsigned,
{
}

} // verus!
