use anvil::pointer::{
    do_pointer_axis, do_pointer_button, do_pointer_motion, hit_test, pointer_frame,
    window_location, Axis, Hit, HitTestResult, PointerStep,
};
use anvil::shell::element::{ButtonState, PointerFocusTarget, WindowElement};
use anvil::shell::ssd::theme::DecorationTheme;
use anvil::shell::WindowSurface;
use anvil::utils::{Coord, Point, Position, Rectangle, Size};

fn at(x: i64, y: i64) -> Position {
    Position { x: Coord::Whole(x), y: Coord::Whole(y) }
}

fn under() -> HitTestResult {
    let target = PointerFocusTarget::WlSurface(3);
    Some(Hit { target, local: at(-4, -4), origin: Point { x: 5, y: 6 } })
}

#[test]
fn hit_tests() {
    let mut window =
        WindowElement::new(WindowSurface::Wayland(4), Some(4), &DecorationTheme::defaults());
    window.set_ssd(true);
    let client = Rectangle::new(Point { x: 0, y: 0 }, Size { w: 640, h: 480 });
    let loc = Point { x: 100, y: 200 };
    assert_eq!(window_location(at(150, 210), loc), at(50, 10));
    let hit = Some((77, Point { x: 1, y: 2 }));
    assert_eq!(
        hit_test(Some((&window, loc)), at(150, 300), hit, client),
        Some(Hit {
            target: PointerFocusTarget::WlSurface(77),
            local: at(49, 66),
            origin: Point { x: 101, y: 234 },
        })
    );
    let decorations = PointerFocusTarget::SSD(WindowSurface::Wayland(4));
    assert_eq!(
        hit_test(Some((&window, loc)), at(150, 210), None, client),
        Some(Hit { target: decorations, local: at(50, 10), origin: loc })
    );
    assert_eq!(hit_test(Some((&window, loc)), at(300, 300), None, client), None);
    assert_eq!(hit_test(None, at(150, 210), None, client), None);

    window.set_ssd(false);
    let loc = Point { x: 100, y: 100 };
    let hit = Some((77, Point { x: 0, y: 0 }));
    let found = hit_test(Some((&window, loc)), at(150, 160), hit, client).unwrap();
    assert_eq!((found.local, found.origin), (at(50, 60), loc));
    let between = Position { x: Coord::Between(150), y: Coord::Whole(160) };
    let found = hit_test(Some((&window, loc)), between, hit, client).unwrap();
    assert_eq!(found.local, Position { x: Coord::Between(50), y: Coord::Whole(60) });
}

#[test]
fn motions() {
    assert_eq!(
        do_pointer_motion(at(1, 2), under()),
        vec![PointerStep::Motion { focus: under(), location: at(1, 2) }]
    );
}

#[test]
fn presses_shift_the_focus() {
    assert_eq!(
        do_pointer_button(at(1, 2), under(), Some(9), true, "right", true),
        vec![
            PointerStep::Motion { focus: under(), location: at(1, 2) },
            PointerStep::Button { code: 0x111, state: ButtonState::Pressed },
            PointerStep::FocusKeyboard(9),
        ]
    );
    assert_eq!(do_pointer_button(at(1, 2), under(), Some(9), false, "left", true).len(), 2);
    assert_eq!(do_pointer_button(at(1, 2), under(), None, true, "left", true).len(), 2);
}

#[test]
fn releases_do_not() {
    assert_eq!(
        do_pointer_button(at(1, 2), under(), Some(9), true, "middle", false),
        vec![
            PointerStep::Motion { focus: None, location: at(1, 2) },
            PointerStep::Button { code: 0x112, state: ButtonState::Released },
        ]
    );
}

#[test]
fn buttons_by_name() {
    let code = |name: &str| match do_pointer_button(at(0, 0), None, None, false, name, true)[1] {
        PointerStep::Button { code, .. } => code,
        _ => panic!("no button"),
    };
    assert_eq!(code("left"), 0x110);
    assert_eq!(code("right"), 0x111);
    assert_eq!(code("middle"), 0x112);
    assert_eq!(code("side"), 0x110);
}

#[test]
fn scrolling() {
    let scroll = |axis: Axis, amount: i64| vec![PointerStep::Scroll { axis, amount }];
    assert_eq!(do_pointer_axis("down", 3), scroll(Axis::Vertical, 45));
    assert_eq!(do_pointer_axis("up", 3), scroll(Axis::Vertical, -45));
    assert_eq!(do_pointer_axis("right", -2), scroll(Axis::Horizontal, -30));
    assert_eq!(do_pointer_axis("left", -2), scroll(Axis::Horizontal, 30));
    assert_eq!(do_pointer_axis("down", i32::MIN), scroll(Axis::Vertical, -32212254720));
    assert!(do_pointer_axis("sideways", 3).is_empty());
}

#[test]
fn frames_come_alone() {
    assert_eq!(pointer_frame(), vec![PointerStep::Frame]);
}
