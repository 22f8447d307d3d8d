use anvil::shell::grabs::ResizeEdge;
use anvil::shell::ssd::geometry::DecorationGeometry;
use anvil::shell::ssd::icons::{close_icon_path, maximize_icon_path, PathStep};
use anvil::shell::ssd::input::{hit_test, resize_edge_for_zone, DecorationHitZone};
use anvil::shell::ssd::render::{
    render_title_bar, GradientConfig, HoverState, Layer, TitleBarStyle,
};
use anvil::shell::ssd::theme::{DecorationTheme, Rgba, Single};
use anvil::shell::ssd::{hex_to_rgb, HeaderBar, HeaderConfig, SolidColorBuffer};
use anvil::shell::{Request, WindowSurface};
use anvil::utils::{Coord, Point, Position, Serial, Size};

fn at(x: i64, y: i64) -> Position {
    Position { x: Coord::Whole(x), y: Coord::Whole(y) }
}

fn gray(bits: u32) -> Rgba {
    let single = Single { bits };
    Rgba { red: single, green: single, blue: single, alpha: single }
}

fn style() -> TitleBarStyle {
    TitleBarStyle {
        bg_focused: gray(1),
        bg_unfocused: gray(2),
        button_width: 32,
        close_hover_bg: gray(3),
        maximize_hover_bg: gray(4),
        gradient: Some(GradientConfig { height: 3, start_rgb: [1, 2, 3], end_rgb: [4, 5, 6] }),
        icon_color: gray(5),
        icon_color_unfocused: gray(6),
        icon_size: 10,
        icon_stroke_width: Single { bits: 7 },
    }
}

#[test]
fn geometry_of_decorations() {
    let active = DecorationGeometry::active(2);
    assert_eq!(active.top_offset(), 32);
    assert_eq!(DecorationGeometry::none().top_offset(), 0);
}

#[test]
fn zones() {
    let zone = |x: i64, y: i64| hit_test(Coord::Whole(x), Coord::Whole(y), 640, 512, 32);
    assert_eq!(zone(0, 0), DecorationHitZone::CornerTopLeft);
    assert_eq!(zone(11, 5), DecorationHitZone::CornerTopLeft);
    assert_eq!(zone(12, 5), DecorationHitZone::BorderTop);
    assert_eq!(zone(628, 5), DecorationHitZone::BorderTop);
    assert_eq!(zone(629, 5), DecorationHitZone::CornerTopRight);
    assert_eq!(zone(100, 6), DecorationHitZone::TitleBar);
    assert_eq!(zone(576, 10), DecorationHitZone::MaximizeButton);
    assert_eq!(zone(607, 31), DecorationHitZone::MaximizeButton);
    assert_eq!(zone(608, 31), DecorationHitZone::CloseButton);
    assert_eq!(zone(0, 32), DecorationHitZone::BorderLeft);
    assert_eq!(zone(5, 100), DecorationHitZone::BorderLeft);
    assert_eq!(zone(6, 100), DecorationHitZone::ClientArea);
    assert_eq!(zone(635, 100), DecorationHitZone::BorderRight);
    assert_eq!(zone(634, 100), DecorationHitZone::ClientArea);
    assert_eq!(zone(300, 507), DecorationHitZone::BorderBottom);
    assert_eq!(zone(300, 506), DecorationHitZone::ClientArea);
    assert_eq!(zone(11, 501), DecorationHitZone::CornerBottomLeft);
    assert_eq!(zone(629, 501), DecorationHitZone::CornerBottomRight);
    let between = hit_test(Coord::Between(5), Coord::Between(31), 640, 512, 32);
    assert_eq!(between, DecorationHitZone::TitleBar);
    let nowhere = hit_test(Coord::Undefined, Coord::Undefined, 640, 512, 32);
    assert_eq!(nowhere, DecorationHitZone::ClientArea);
}

#[test]
fn edges_of_zones() {
    assert_eq!(resize_edge_for_zone(DecorationHitZone::BorderTop), Some(ResizeEdge::Top));
    assert_eq!(resize_edge_for_zone(DecorationHitZone::BorderBottom), Some(ResizeEdge::Bottom));
    assert_eq!(resize_edge_for_zone(DecorationHitZone::BorderLeft), Some(ResizeEdge::Left));
    assert_eq!(resize_edge_for_zone(DecorationHitZone::BorderRight), Some(ResizeEdge::Right));
    assert_eq!(resize_edge_for_zone(DecorationHitZone::CornerTopLeft), Some(ResizeEdge::TopLeft));
    assert_eq!(resize_edge_for_zone(DecorationHitZone::CornerTopRight), Some(ResizeEdge::TopRight));
    assert_eq!(
        resize_edge_for_zone(DecorationHitZone::CornerBottomLeft),
        Some(ResizeEdge::BottomLeft)
    );
    assert_eq!(
        resize_edge_for_zone(DecorationHitZone::CornerBottomRight),
        Some(ResizeEdge::BottomRight)
    );
    assert_eq!(resize_edge_for_zone(DecorationHitZone::CloseButton), None);
    assert_eq!(resize_edge_for_zone(DecorationHitZone::ClientArea), None);
}

#[test]
fn hexadecimal_colors() {
    assert_eq!(hex_to_rgb("#440DC3"), Some([0x44, 0x0d, 0xc3]));
    assert_eq!(hex_to_rgb("00bf63"), Some([0x00, 0xbf, 0x63]));
    assert_eq!(hex_to_rgb("###ffFFff"), Some([0xff, 0xff, 0xff]));
    assert_eq!(hex_to_rgb("+1+2+3"), None);
    assert_eq!(hex_to_rgb("#+10203"), None);
    assert_eq!(hex_to_rgb("aBcDeF"), Some([0xab, 0xcd, 0xef]));
    assert_eq!(hex_to_rgb("12345"), None);
    assert_eq!(hex_to_rgb("1234567"), None);
    assert_eq!(hex_to_rgb("#12345g"), None);
    assert_eq!(hex_to_rgb("++1122"), None);
    assert_eq!(hex_to_rgb("#"), None);
    assert_eq!(hex_to_rgb(""), None);
}

#[test]
fn icons_are_centered() {
    assert_eq!(
        close_icon_path(100, 32, 10),
        vec![
            PathStep::MoveTo { x: 90, y: 22 },
            PathStep::LineTo { x: 110, y: 42 },
            PathStep::MoveTo { x: 110, y: 22 },
            PathStep::LineTo { x: 90, y: 42 },
        ]
    );
    assert_eq!(
        maximize_icon_path(100, 32, 10),
        vec![
            PathStep::MoveTo { x: 90, y: 22 },
            PathStep::LineTo { x: 110, y: 22 },
            PathStep::LineTo { x: 110, y: 42 },
            PathStep::LineTo { x: 90, y: 42 },
            PathStep::Close,
        ]
    );
}

#[test]
fn a_focused_title_bar_has_a_stripe() {
    let drawing = render_title_bar(640, 32, &style(), true, HoverState::Neither).unwrap();
    assert_eq!((drawing.width, drawing.height), (640, 32));
    assert_eq!(drawing.canvas, vec![0; 640 * 32 * 4]);
    assert_eq!(drawing.layers.len(), 4);
    assert!(matches!(&drawing.layers[0], Layer::Background(color) if *color == gray(1)));
    assert!(matches!(
        &drawing.layers[1],
        Layer::Stripe { width: 640, height: 3, start_rgb: [1, 2, 3], end_rgb: [4, 5, 6] }
    ));
    let Layer::Icon { path, color, stroke_width } = &drawing.layers[2] else {
        panic!("no close icon");
    };
    assert_eq!(path, &close_icon_path(2 * 640 - 32, 32, 10));
    assert_eq!(*color, gray(5));
    assert_eq!(stroke_width.bits, 7);
    let Layer::Icon { path, .. } = &drawing.layers[3] else {
        panic!("no maximize icon");
    };
    assert_eq!(path, &maximize_icon_path(2 * 640 - 96, 32, 10));
}

#[test]
fn an_unfocused_title_bar_has_none() {
    let drawing = render_title_bar(640, 32, &style(), false, HoverState::Neither).unwrap();
    assert_eq!(drawing.layers.len(), 3);
    assert!(matches!(&drawing.layers[0], Layer::Background(color) if *color == gray(2)));
    assert!(matches!(&drawing.layers[1], Layer::Icon { color, .. } if *color == gray(6)));
    let mut flat = style();
    flat.gradient = Some(GradientConfig { height: 0, start_rgb: [0; 3], end_rgb: [0; 3] });
    let drawing = render_title_bar(640, 32, &flat, true, HoverState::Neither).unwrap();
    assert_eq!(drawing.layers.len(), 3);
}

#[test]
fn hovered_buttons_are_filled() {
    let close = render_title_bar(640, 32, &style(), false, HoverState::Close).unwrap();
    assert!(matches!(
        &close.layers[1],
        Layer::ButtonFill { x: 608, width: 32, height: 32, color } if *color == gray(3)
    ));
    let maximize = render_title_bar(640, 32, &style(), false, HoverState::Maximize).unwrap();
    assert!(matches!(
        &maximize.layers[1],
        Layer::ButtonFill { x: 576, width: 32, height: 32, color } if *color == gray(4)
    ));
    let narrow = render_title_bar(10, 32, &style(), false, HoverState::Maximize).unwrap();
    assert!(matches!(&narrow.layers[1], Layer::ButtonFill { x: -54, .. }));
}

#[test]
fn some_sizes_cannot_be_drawn() {
    assert!(render_title_bar(0, 32, &style(), true, HoverState::Neither).is_none());
    assert!(render_title_bar(640, 0, &style(), true, HoverState::Neither).is_none());
    assert!(render_title_bar(u32::MAX, 1, &style(), true, HoverState::Neither).is_none());
    assert!(render_title_bar(i32::MAX as u32 / 4 + 1, 1, &style(), true, HoverState::Neither)
        .is_none());
}

#[test]
fn settings_come_from_the_theme() {
    let mut theme = DecorationTheme::defaults();
    let config = HeaderConfig::from_theme(&theme);
    let gradient = config.style.gradient.unwrap();
    assert_eq!(gradient.height, 3);
    assert_eq!(gradient.start_rgb, [0x44, 0x0d, 0xc3]);
    assert_eq!(gradient.end_rgb, [0x00, 0xbf, 0x63]);
    assert_eq!(config.style.button_width, 32);
    assert_eq!(config.style.icon_size, 10);
    assert_eq!(config.border_width, 2);

    theme.gradient_stripe.start_color = "not a color".to_string();
    theme.gradient_stripe.end_color = "#010203".to_string();
    theme.gradient_stripe.height = -1;
    theme.buttons.width = -2;
    let config = HeaderConfig::from_theme(&theme);
    let gradient = config.style.gradient.unwrap();
    assert_eq!(gradient.height, u32::MAX);
    assert_eq!(gradient.start_rgb, [0x44, 0x0d, 0xc3]);
    assert_eq!(gradient.end_rgb, [1, 2, 3]);
    assert_eq!(config.style.button_width, u32::MAX - 1);
    assert_eq!(config.button_width, -2);

    theme.gradient_stripe.enabled = false;
    assert!(HeaderConfig::from_theme(&theme).style.gradient.is_none());
}

#[test]
fn a_new_header_bar_was_never_drawn() {
    let bar = HeaderBar::new(&DecorationTheme::defaults());
    assert_eq!(bar.pointer_loc, None);
    assert_eq!(bar.width, 0);
    assert!(bar.is_focused);
    assert!(!bar.close_button_hover && !bar.maximize_button_hover);
    assert!(bar.title_bar_buffer.is_none());
    assert_eq!(bar.border_left.size, Size { w: 0, h: 0 });
    assert_eq!(bar.border_left, bar.border_right);
    assert_eq!(bar.button_width(), 32);
    assert_eq!(bar.border_width(), 2);
    assert_eq!(bar.border_color(), bar.config.border_focused);
}

#[test]
fn buttons_under_the_pointer() {
    let mut bar = HeaderBar::new(&DecorationTheme::defaults());
    bar.redraw(640, 480);
    assert!(!bar.is_over_close());
    assert!(!bar.is_over_maximize());
    bar.pointer_enter(at(608, 0));
    assert!(bar.is_over_close());
    assert!(!bar.is_over_maximize());
    bar.pointer_enter(Position { x: Coord::Between(607), y: Coord::Whole(0) });
    assert!(!bar.is_over_close());
    assert!(bar.is_over_maximize());
    bar.pointer_enter(at(576, 0));
    assert!(bar.is_over_maximize());
    bar.pointer_enter(at(575, 0));
    assert!(!bar.is_over_maximize());
    bar.pointer_leave();
    assert_eq!(bar.pointer_loc, None);
}

#[test]
fn clicks_and_touches() {
    let wayland = WindowSurface::Wayland(9);
    let x11 = WindowSurface::X11(5);
    let serial = Serial { value: 3 };
    let mut bar = HeaderBar::new(&DecorationTheme::defaults());
    bar.redraw(640, 480);
    assert_eq!(bar.clicked(1, wayland, serial), None);
    assert_eq!(bar.touch_down(1, wayland, serial), None);
    assert_eq!(bar.touch_up(1, wayland, serial), None);

    bar.pointer_enter(at(620, 10));
    assert_eq!(bar.clicked(1, wayland, serial), Some(Request::SendClose(9)));
    assert_eq!(bar.clicked(1, x11, serial), Some(Request::CloseX11(5)));
    assert_eq!(bar.touch_down(1, wayland, serial), None);
    assert_eq!(bar.touch_up(1, wayland, serial), Some(Request::SendClose(9)));

    bar.pointer_enter(at(600, 10));
    assert_eq!(bar.clicked(1, wayland, serial), Some(Request::Maximize(9)));
    assert_eq!(bar.touch_up(1, x11, serial), Some(Request::MaximizeX11(5)));
    assert_eq!(bar.touch_down(1, x11, serial), None);

    bar.pointer_enter(at(20, 10));
    let moved = Some(Request::Move { toplevel: 9, seat: 1, serial });
    assert_eq!(bar.clicked(1, wayland, serial), moved);
    assert_eq!(bar.touch_down(1, wayland, serial), moved);
    assert_eq!(bar.touch_down(1, x11, serial), Some(Request::MoveX11(5)));
    assert_eq!(bar.touch_up(1, wayland, serial), None);
}

#[test]
fn buttons_are_not_below_the_title_bar() {
    let wayland = WindowSurface::Wayland(9);
    let serial = Serial { value: 3 };
    let mut bar = HeaderBar::new(&DecorationTheme::defaults());
    bar.width = 400;
    bar.pointer_enter(at(398, 31));
    assert!(bar.is_over_close());
    bar.pointer_enter(at(340, 31));
    assert!(bar.is_over_maximize());
    for (x, y) in [(398, 32), (398, 200), (340, 32), (340, 200)] {
        bar.pointer_enter(at(x, y));
        assert!(!bar.is_over_close());
        assert!(!bar.is_over_maximize());
        assert_eq!(bar.touch_up(1, wayland, serial), None);
    }
    // A bar without room for its buttons has none that the pointer could be over.
    bar.width = 10;
    assert!(!bar.is_over_close());
}

#[test]
fn redrawing() {
    let mut bar = HeaderBar::new(&DecorationTheme::defaults());
    bar.redraw(640, 480);
    let focused = bar.config.border_focused;
    assert_eq!(bar.title_bar_buffer.as_ref().unwrap().layers.len(), 4);
    assert_eq!((bar.rendered_width, bar.rendered_focused), (640, true));
    let side = SolidColorBuffer { size: Size { w: 2, h: 480 }, color: focused };
    assert_eq!(bar.border_left, side);
    assert_eq!(bar.border_right, side);
    assert_eq!(
        bar.border_bottom,
        SolidColorBuffer { size: Size { w: 640, h: 2 }, color: focused }
    );

    // Nothing changed, so the drawing is kept.
    bar.title_bar_buffer = None;
    bar.redraw(640, 480);
    assert!(bar.title_bar_buffer.is_none());

    bar.pointer_enter(at(620, 10));
    bar.is_focused = false;
    bar.redraw(640, 0);
    assert!(bar.close_button_hover);
    assert!(!bar.maximize_button_hover);
    assert_eq!(bar.rendered_hover, HoverState::Close);
    assert_eq!(bar.title_bar_buffer.as_ref().unwrap().layers.len(), 4);
    // The borders need a client to surround.
    assert_eq!(bar.border_left, side);

    bar.redraw(0, 480);
    assert_eq!(bar.width, 0);
    assert!(bar.title_bar_buffer.is_none());
    assert!(bar.close_button_hover);
    assert_eq!(bar.rendered_width, 640);
}

#[test]
fn borders_surround_the_client() {
    let mut bar = HeaderBar::new(&DecorationTheme::defaults());
    assert!(bar.border_render_elements(480).is_empty());
    bar.redraw(640, 480);
    assert!(bar.border_render_elements(0).is_empty());
    let borders = bar.border_render_elements(480);
    assert_eq!(
        borders,
        vec![
            (Point { x: 0, y: 32 }, bar.border_left),
            (Point { x: 638, y: 32 }, bar.border_right),
            (Point { x: 0, y: 510 }, bar.border_bottom),
        ]
    );
    bar.config.border_width = 0;
    assert!(bar.border_render_elements(480).is_empty());
}
