use anvil::utils::{cast_i32, cast_u32, Coord, Point, Rectangle, Serial, Size};

fn rect(x: i32, y: i32, w: i32, h: i32) -> Rectangle {
    Rectangle::new(Point { x, y }, Size { w, h })
}

#[test]
fn points_saturate() {
    let far = Point { x: i32::MAX - 1, y: i32::MIN };
    assert_eq!(far.plus(Point { x: 5, y: -1 }), Point { x: i32::MAX, y: i32::MIN });
    assert_eq!(far.minus(Point { x: -5, y: 1 }), Point { x: i32::MAX, y: i32::MIN });
    assert_eq!(Point { x: 3, y: 4 }.plus(Point { x: -1, y: 2 }), Point { x: 2, y: 6 });
    assert_eq!(Point { x: 3, y: 4 }.minus(Point { x: -1, y: 2 }), Point { x: 4, y: 2 });
}

#[test]
fn merging_covers_both() {
    let left = rect(0, 0, 1920, 1080);
    let right = rect(1920, 200, 1280, 720);
    assert_eq!(left.merge(right), rect(0, 0, 3200, 1080));
    assert_eq!(right.merge(left), rect(0, 0, 3200, 1080));
    assert_eq!(left.merge(left), left);
    assert_eq!(rect(-10, -20, 5, 5).merge(rect(0, 0, 1, 1)), rect(-10, -20, 11, 21));
}

#[test]
fn merging_saturates() {
    let wide = rect(i32::MIN, 0, 10, 10).merge(rect(i32::MAX - 1, 0, 10, 10));
    assert_eq!(wide, rect(i32::MIN, 0, i32::MAX, 10));
}

#[test]
fn emptiness() {
    assert!(rect(1, 2, 0, 5).is_empty());
    assert!(rect(1, 2, 5, 0).is_empty());
    assert!(!rect(1, 2, 5, 5).is_empty());
}

#[test]
fn coordinates_compare_with_pixels() {
    assert!(Coord::Whole(5).is_at_least(5));
    assert!(!Coord::Whole(5).is_after(5));
    assert!(!Coord::Whole(5).is_before(5));
    assert!(Coord::Between(5).is_after(5));
    assert!(Coord::Between(5).is_before(6));
    assert!(!Coord::Between(5).is_at_least(6));
    assert!(!Coord::Undefined.is_before(0));
    assert!(!Coord::Undefined.is_at_least(0));
    assert!(!Coord::Undefined.is_after(0));
}

#[test]
fn truncation_goes_towards_zero() {
    assert_eq!(Coord::Whole(-3).truncate(), -3);
    assert_eq!(Coord::Between(-3).truncate(), -2);
    assert_eq!(Coord::Between(-1).truncate(), 0);
    assert_eq!(Coord::Between(7).truncate(), 7);
    assert_eq!(Coord::Undefined.truncate(), 0);
    assert_eq!(Coord::Whole(i64::MAX).truncate(), i32::MAX);
    assert_eq!(Coord::Between(i64::MIN).truncate(), i32::MIN);
}

#[test]
fn coordinates_move_with_their_origin() {
    assert_eq!(Coord::Whole(10).minus(32), Coord::Whole(-22));
    assert_eq!(Coord::Between(10).minus(-5), Coord::Between(15));
    assert_eq!(Coord::Undefined.minus(3), Coord::Undefined);
    assert_eq!(Coord::Whole(i64::MIN).minus(1), Coord::Whole(i64::MIN));
    assert_eq!(Coord::Whole(i64::MAX).minus(-1), Coord::Whole(i64::MAX));
}

#[test]
fn casts_wrap() {
    assert_eq!(cast_u32(-1), u32::MAX);
    assert_eq!(cast_u32(32), 32);
    assert_eq!(cast_i32(u32::MAX), -1);
    assert_eq!(cast_i32(7), 7);
}

#[test]
fn serials_wrap_around() {
    let serial = |value: u32| Serial { value };
    assert!(serial(7).is_no_older_than(serial(7)));
    assert!(serial(8).is_no_older_than(serial(7)));
    assert!(!serial(7).is_no_older_than(serial(8)));
    assert!(serial(3).is_no_older_than(serial(u32::MAX - 3)));
    assert!(!serial(u32::MAX - 3).is_no_older_than(serial(3)));
    // Half of all numbers apart, the comparison turns around.
    assert!(serial(u32::MAX / 2 - 1).is_no_older_than(serial(0)));
    assert!(!serial(u32::MAX / 2).is_no_older_than(serial(0)));
}
