use anvil::shell::element::{
    cursor_for_resize_edge, ssd_hit_zone, ButtonState, CursorImageStatus, PointerFocusTarget, WindowElement,
    WindowRenderElement, BTN_LEFT, SSD,
};
use anvil::shell::grabs::ResizeEdge;
use anvil::shell::ssd::input::DecorationHitZone;
use anvil::shell::ssd::theme::DecorationTheme;
use anvil::shell::ssd::HeaderBar;
use anvil::shell::{Request, WindowSurface};
use anvil::utils::{Coord, Point, Position, Rectangle, Serial, Size};

const SERIAL: Serial = Serial { value: 11 };

fn at(x: i64, y: i64) -> Position {
    Position { x: Coord::Whole(x), y: Coord::Whole(y) }
}

fn client() -> Rectangle {
    Rectangle::new(Point { x: 0, y: 0 }, Size { w: 640, h: 480 })
}

fn window(ssd: bool) -> WindowElement {
    let theme = DecorationTheme::defaults();
    let mut window = WindowElement::new(WindowSurface::Wayland(4), Some(4), &theme);
    window.set_ssd(ssd);
    window
}

fn name(status: &CursorImageStatus) -> &str {
    match status {
        CursorImageStatus::Named(name) => name,
        _ => panic!("not a named cursor"),
    }
}

#[test]
fn resize_cursors() {
    let cursor = |edge: ResizeEdge| name(&cursor_for_resize_edge(edge)).to_string();
    assert_eq!(cursor(ResizeEdge::Top), "n-resize");
    assert_eq!(cursor(ResizeEdge::Bottom), "s-resize");
    assert_eq!(cursor(ResizeEdge::Left), "w-resize");
    assert_eq!(cursor(ResizeEdge::Right), "e-resize");
    assert_eq!(cursor(ResizeEdge::TopLeft), "nw-resize");
    assert_eq!(cursor(ResizeEdge::TopRight), "ne-resize");
    assert_eq!(cursor(ResizeEdge::BottomLeft), "sw-resize");
    assert_eq!(cursor(ResizeEdge::BottomRight), "se-resize");
    assert_eq!(cursor(ResizeEdge::NoEdge), "default");
}

#[test]
fn kinds_of_windows() {
    let wayland = window(false);
    assert!(wayland.is_wayland() && !wayland.is_x11());
    assert_eq!(wayland.wl_surface(), Some(4));
    assert!(!wayland.decoration_state().is_ssd);
    let x11 = WindowElement::new(WindowSurface::X11(8), None, &DecorationTheme::defaults());
    assert!(x11.is_x11() && !x11.is_wayland());
    assert_eq!(x11.wl_surface(), None);
}

#[test]
fn decorations_add_height() {
    assert_eq!(window(true).geometry(client()).size, Size { w: 640, h: 512 });
    assert_eq!(window(true).bbox(client()).size, Size { w: 640, h: 512 });
    assert_eq!(window(false).geometry(client()), client());
    assert_eq!(window(false).bbox(client()), client());
}

#[test]
fn clients_come_first_under_the_pointer() {
    let hit = Some((77, Point { x: 1, y: 2 }));
    // A popup over the title bar.
    assert_eq!(
        window(true).surface_under(at(10, 3), hit, client()),
        Some((PointerFocusTarget::WlSurface(77), Point { x: 1, y: 34 }))
    );
    assert_eq!(
        window(false).surface_under(at(10, 3), hit, client()),
        Some((PointerFocusTarget::WlSurface(77), Point { x: 1, y: 2 }))
    );
    let x11 = WindowElement::new(WindowSurface::X11(8), None, &DecorationTheme::defaults());
    assert_eq!(
        x11.surface_under(at(10, 3), hit, client()),
        Some((PointerFocusTarget::X11Surface(8), Point { x: 1, y: 2 }))
    );
}

#[test]
fn decorations_under_the_pointer() {
    let target = PointerFocusTarget::SSD(WindowSurface::Wayland(4));
    let decorations = Some((target, Point { x: 0, y: 0 }));
    let decorated = window(true);
    assert_eq!(decorated.surface_under(at(100, 10), None, client()), decorations);
    assert_eq!(decorated.surface_under(at(3, 100), None, client()), decorations);
    assert_eq!(decorated.surface_under(at(300, 511), None, client()), decorations);
    assert_eq!(decorated.surface_under(at(300, 100), None, client()), None);
    assert_eq!(window(false).surface_under(at(100, 10), None, client()), None);
    assert_eq!(decorated.client_location(at(5, 40)), at(5, 8));
    assert_eq!(window(false).client_location(at(5, 40)), at(5, 40));
}

#[test]
fn input_regions() {
    assert!(window(true).is_in_input_region(at(5, 31), false));
    assert!(!window(true).is_in_input_region(at(5, 32), false));
    assert!(window(true).is_in_input_region(at(5, 32), true));
    assert!(!window(false).is_in_input_region(at(5, 31), false));
    assert!(window(false).is_in_input_region(at(5, 31), true));
}

#[test]
fn activation_shows_in_decorations() {
    let mut decorated = window(true);
    decorated.set_activate(false);
    assert!(!decorated.decorations.header_bar.is_focused);
    decorated.set_activate(true);
    assert!(decorated.decorations.header_bar.is_focused);
    let mut bare = window(false);
    bare.set_activate(false);
    assert!(bare.decorations.header_bar.is_focused);
}

#[test]
fn drawing_order() {
    let mut decorated = window(true);
    let elements = decorated.render_elements(client(), client());
    let bar = &decorated.decorations.header_bar;
    assert_eq!(
        elements,
        vec![
            WindowRenderElement::Window { below_title_bar: true },
            WindowRenderElement::TitleBar,
            WindowRenderElement::Decoration {
                offset: Point { x: 0, y: 32 },
                buffer: bar.border_left
            },
            WindowRenderElement::Decoration {
                offset: Point { x: 638, y: 32 },
                buffer: bar.border_right
            },
            WindowRenderElement::Decoration {
                offset: Point { x: 0, y: 510 },
                buffer: bar.border_bottom
            },
        ]
    );
    let alone = vec![WindowRenderElement::Window { below_title_bar: false }];
    assert_eq!(window(false).render_elements(client(), client()), alone);
    let empty = Rectangle::new(Point { x: 0, y: 0 }, Size { w: 0, h: 480 });
    assert_eq!(window(true).render_elements(empty, client()), alone);
    let flat = Rectangle::new(Point { x: 0, y: 0 }, Size { w: 0, h: 0 });
    assert_eq!(
        window(true).render_elements(client(), flat),
        vec![WindowRenderElement::Window { below_title_bar: true }]
    );
}

#[test]
fn the_cursor_follows_the_zone() {
    let mut ssd = SSD { window: window(true) };
    let mut cursor = CursorImageStatus::Hidden;
    ssd.enter(at(2, 100), client(), &mut cursor);
    assert_eq!(name(&cursor), "w-resize");
    assert_eq!(ssd.window.decorations.header_bar.pointer_loc, Some(at(2, 100)));
    ssd.motion(at(630, 2), client(), &mut cursor);
    assert_eq!(name(&cursor), "ne-resize");
    ssd.motion(at(630, 20), client(), &mut cursor);
    assert_eq!(name(&cursor), "default");
    cursor = CursorImageStatus::Surface(3);
    ssd.leave(&mut cursor);
    assert_eq!(name(&cursor), "default");
    assert_eq!(ssd.window.decorations.header_bar.pointer_loc, None);

    let mut bare = SSD { window: window(false) };
    cursor = CursorImageStatus::Surface(3);
    bare.enter(at(2, 100), client(), &mut cursor);
    assert!(matches!(cursor, CursorImageStatus::Surface(3)));
    assert_eq!(bare.window.decorations.header_bar.pointer_loc, None);
}

#[test]
fn left_presses_act_on_zones() {
    let mut ssd = SSD { window: window(true) };
    let press = |ssd: &SSD| ssd.button(1, ButtonState::Pressed, BTN_LEFT, SERIAL, client());
    assert_eq!(press(&ssd), None);
    ssd.touch_motion(at(620, 10));
    assert_eq!(press(&ssd), Some(Request::SendClose(4)));
    ssd.touch_motion(at(600, 10));
    assert_eq!(press(&ssd), Some(Request::Maximize(4)));
    ssd.touch_motion(at(100, 10));
    assert_eq!(press(&ssd), Some(Request::Move { toplevel: 4, seat: 1, serial: SERIAL }));
    ssd.touch_motion(at(639, 511));
    assert_eq!(
        press(&ssd),
        Some(Request::Resize {
            window: WindowSurface::Wayland(4),
            seat: 1,
            serial: SERIAL,
            edges: ResizeEdge::BottomRight
        })
    );
    assert_eq!(ssd.button(1, ButtonState::Released, BTN_LEFT, SERIAL, client()), None);
    assert_eq!(ssd.button(1, ButtonState::Pressed, 0x111, SERIAL, client()), None);
    ssd.window.set_ssd(false);
    assert_eq!(press(&ssd), None);
}

#[test]
fn touches_move_at_once_and_act_at_the_end() {
    let mut ssd = SSD { window: window(true) };
    ssd.window.render_elements(client(), client());
    let moved = Some(Request::Move { toplevel: 4, seat: 1, serial: SERIAL });
    assert_eq!(ssd.down(1, at(100, 10), SERIAL), moved);
    assert_eq!(ssd.up(1, SERIAL), None);
    assert_eq!(ssd.down(1, at(620, 10), SERIAL), None);
    assert_eq!(ssd.up(1, SERIAL), Some(Request::SendClose(4)));
    assert_eq!(ssd.down(1, at(600, 10), SERIAL), None);
    assert_eq!(ssd.up(1, SERIAL), Some(Request::Maximize(4)));
    ssd.window.set_ssd(false);
    assert_eq!(ssd.down(1, at(100, 10), SERIAL), None);
    assert_eq!(ssd.up(1, SERIAL), None);
    assert_eq!(ssd.window.decorations.header_bar.pointer_loc, Some(at(600, 10)));
}

#[test]
fn touches_and_presses_find_the_same_buttons() {
    let mut bar = HeaderBar::new(&DecorationTheme::defaults());
    bar.redraw(640, 480);
    let columns = [570, 575, 576, 607, 608, 639, 700];
    for (x, y) in columns.into_iter().flat_map(|x| [(x, 6), (x, 31), (x, 32), (x, 200)]) {
        let loc = at(x, y);
        bar.pointer_enter(loc);
        let zone = ssd_hit_zone(loc, client(), bar.button_width());
        assert_eq!(zone == DecorationHitZone::CloseButton, bar.is_over_close());
        assert_eq!(zone == DecorationHitZone::MaximizeButton, bar.is_over_maximize());
    }
}
