use anvil::shell::snap::{
    detect_snap_zone, snap_client_size, snap_zone_geometry, usable_area, SnapPreview, SnapZone,
};
use anvil::shell::ssd::theme::DecorationTheme;
use anvil::utils::{Coord, Point, Position, Rectangle, Size};

fn rect(x: i32, y: i32, w: i32, h: i32) -> Rectangle {
    Rectangle::new(Point { x, y }, Size { w, h })
}

fn zone(x: i64, y: i64) -> Option<SnapZone> {
    let pointer = Position { x: Coord::Between(x), y: Coord::Between(y) };
    detect_snap_zone(pointer, rect(0, 40, 1921, 1041), 16)
}

#[test]
fn panels_take_their_part() {
    assert_eq!(
        usable_area(rect(0, 40, 1920, 1000), rect(1920, 100, 1920, 1080)),
        rect(1920, 140, 1920, 1000)
    );
}

#[test]
fn zones_near_edges_and_corners() {
    assert_eq!(zone(5, 45), Some(SnapZone::TopLeftQuarter));
    assert_eq!(zone(1915, 56), Some(SnapZone::TopRightQuarter));
    assert_eq!(zone(16, 1080), Some(SnapZone::BottomLeftQuarter));
    assert_eq!(zone(1905, 1065), Some(SnapZone::BottomRightQuarter));
    assert_eq!(zone(16, 500), Some(SnapZone::LeftHalf));
    assert_eq!(zone(17, 500), None);
    assert_eq!(zone(1905, 500), Some(SnapZone::RightHalf));
    assert_eq!(zone(1904, 500), None);
    assert_eq!(zone(900, 56), Some(SnapZone::Maximize));
    assert_eq!(zone(900, 57), None);
    assert_eq!(zone(900, 1080), None);
}

#[test]
fn zones_of_an_odd_area() {
    let usable = rect(0, 40, 1921, 1041);
    let geometry = |zone: SnapZone| snap_zone_geometry(zone, usable);
    assert_eq!(geometry(SnapZone::LeftHalf), rect(0, 40, 960, 1041));
    assert_eq!(geometry(SnapZone::RightHalf), rect(960, 40, 961, 1041));
    assert_eq!(geometry(SnapZone::Maximize), usable);
    assert_eq!(geometry(SnapZone::TopLeftQuarter), rect(0, 40, 960, 520));
    assert_eq!(geometry(SnapZone::TopRightQuarter), rect(960, 40, 961, 520));
    assert_eq!(geometry(SnapZone::BottomLeftQuarter), rect(0, 560, 960, 521));
    assert_eq!(geometry(SnapZone::BottomRightQuarter), rect(960, 560, 961, 521));
    // Halves and quarters fill the area.
    assert_eq!(geometry(SnapZone::LeftHalf).merge(geometry(SnapZone::RightHalf)), usable);
    assert_eq!(
        geometry(SnapZone::TopLeftQuarter).merge(geometry(SnapZone::BottomLeftQuarter)),
        geometry(SnapZone::LeftHalf)
    );
}

#[test]
fn decorations_take_height_from_the_client() {
    assert_eq!(snap_client_size(rect(0, 0, 960, 1041), true), (960, 1009));
    assert_eq!(snap_client_size(rect(0, 0, 960, 1041), false), (960, 1041));
    assert_eq!(snap_client_size(rect(0, 0, 960, 10), true), (960, -22));
}

#[test]
fn previews_are_translucent() {
    let theme = DecorationTheme::defaults();
    let usable = rect(0, 0, 800, 600);
    let preview = SnapPreview::new(SnapZone::RightHalf, usable, &theme);
    assert_eq!(preview.zone, SnapZone::RightHalf);
    assert_eq!(preview.rect, rect(400, 0, 400, 600));
    assert_eq!(preview.buffer.size, Size { w: 400, h: 600 });
    assert_eq!(preview.buffer.color.red, theme.snap_preview.color.red);
    assert_eq!(f32::from_bits(preview.buffer.color.alpha.bits), 0.2);
    assert_eq!(f32::from_bits(preview.opacity.bits), 1.0);
}
