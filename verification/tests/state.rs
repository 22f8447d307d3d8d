use anvil::shell::element::CursorImageStatus;
use anvil::shell::xdg::{DecorationMode, KeyboardFocusTarget, ToplevelState};
use anvil::state::{
    capture_constraints, capture_frame, confined_client, cursor_position_hint, enforce_server_side,
    keyboard_focus_for_xsurface, new_client, new_constraint, new_decoration, new_fractional_scale,
    output_can_view, parent_geometry, request_activation, request_mode, security_context_can_view,
    unset_mode, workspace_client, AnvilState, CaptureFrame, DndIcon, Features, Global, ScaleSources,
    ShmFormat, Toplevel,
};
use anvil::utils::{Point, Rectangle, Serial, Size};
use anvil::workspace::{SpaceView, WindowView};

fn init(features: Features) -> (AnvilState, Vec<Global>) {
    let started =
        AnvilState::init(features, "seat0".to_string(), 1, 2, Some("wayland-1".to_string()), None);
    assert_eq!((started.human_seat.name, started.ai_seat.name), ("human", "ai"));
    assert_eq!((started.human_seat.repeat_delay, started.human_seat.repeat_rate), (200, 25));
    assert_eq!((started.ai_seat.repeat_delay, started.ai_seat.repeat_rate), (200, 25));
    (started.state, started.globals)
}

const BARE: Features = Features { relative_motion: false, gestures: false, xwayland: false };
const FULL: Features = Features { relative_motion: true, gestures: true, xwayland: true };

fn named(status: &CursorImageStatus) -> bool {
    matches!(status, CursorImageStatus::Named(name) if name == "default")
}

fn space() -> SpaceView {
    let window = |id: u64, surface: Option<u64>| WindowView {
        id,
        surface,
        geometry: Rectangle::new(Point { x: id as i32, y: 1 }, Size { w: 10, h: 20 }),
        location: Point { x: 0, y: 0 },
        outputs: Vec::new(),
        tree: Vec::new(),
    };
    SpaceView {
        windows: vec![window(30, None), window(31, Some(5)), window(32, Some(6)), window(33, Some(5))],
        outputs: Vec::new(),
    }
}

#[test]
fn a_fresh_state() {
    let (state, globals) = init(BARE);
    assert_eq!(state.socket_name.as_deref(), Some("wayland-1"));
    assert_eq!(state.human_seat_name, "seat0");
    assert!(state.running);
    assert!(named(&state.cursor_status) && named(&state.ai_cursor_status));
    assert!(state.dnd_icon.is_none() && state.snap_preview.is_none());
    assert!(state.copilot_mode.is_none() && state.drive_mode.is_none());
    assert!(!state.show_window_preview);
    assert!(state.workspace_sockets.is_empty());
    assert_eq!(state.decoration_theme.title_bar.height, 32);
    assert_eq!(globals.len(), 31);
    assert_eq!(globals[0], Global::Compositor);
    assert_eq!(globals[30], Global::ExportOutput);
}

#[test]
fn some_globals_depend_on_the_backend() {
    let (_, bare) = init(BARE);
    for global in [
        Global::RelativePointer,
        Global::PointerGestures,
        Global::XwaylandShell,
        Global::XwaylandKeyboardGrab,
    ] {
        assert!(!bare.contains(&global));
    }
    let (_, full) = init(FULL);
    assert_eq!(full.len(), 35);
    let place = |global: Global| full.iter().position(|own| *own == global).unwrap();
    assert_eq!(place(Global::RelativePointer) + 1, place(Global::PointerConstraints));
    assert_eq!(place(Global::PointerConstraints) + 1, place(Global::PointerGestures));
    assert!(place(Global::HumanSeat) < place(Global::AiSeat));
}

#[test]
fn drags_have_icons() {
    let (mut state, _) = init(BARE);
    state.dnd_requested(Some(8));
    assert_eq!(state.dnd_icon, Some(DndIcon { surface: 8, offset: Point { x: 0, y: 0 } }));
    state.dropped();
    assert_eq!(state.dnd_icon, None);
    state.dnd_requested(None);
    assert_eq!(state.dnd_icon, None);
}

#[test]
fn each_seat_has_its_cursor() {
    let (mut state, _) = init(BARE);
    state.cursor_image(2, CursorImageStatus::Hidden);
    assert!(named(&state.cursor_status));
    assert!(matches!(state.ai_cursor_status, CursorImageStatus::Hidden));
    state.cursor_image(1, CursorImageStatus::Surface(9));
    assert!(matches!(state.cursor_status, CursorImageStatus::Surface(9)));
    assert!(matches!(state.ai_cursor_status, CursorImageStatus::Hidden));
    state.cursor_image(3, CursorImageStatus::Hidden);
    assert!(matches!(state.cursor_status, CursorImageStatus::Surface(9)));
    state.tablet_tool_image(CursorImageStatus::Hidden);
    assert!(matches!(state.cursor_status, CursorImageStatus::Hidden));
}

#[test]
fn activation_tokens() {
    let (state, _) = init(BARE);
    let serial = |value: u32| Serial { value };
    let entered = Some(serial(10));
    assert!(state.token_created(Some((serial(10), Some(1))), entered));
    assert!(state.token_created(Some((serial(11), Some(1))), entered));
    assert!(!state.token_created(Some((serial(9), Some(1))), entered));
    assert!(!state.token_created(Some((serial(11), Some(2))), entered));
    assert!(!state.token_created(Some((serial(11), None)), entered));
    assert!(!state.token_created(Some((serial(11), Some(1))), None));
    assert!(!state.token_created(None, entered));
    assert_eq!(request_activation(9, &space(), 5), Some(31));
    assert_eq!(request_activation(10, &space(), 5), None);
    assert_eq!(request_activation(0, &space(), 9), None);
}

#[test]
fn small_state_changes() {
    let (mut state, _) = init(BARE);
    state.xwayland_ready(1);
    assert_eq!(state.xdisplay, Some(1));
    assert_eq!(state.get_cached_ai_workspace(), None);
    state.set_cached_ai_workspace(4);
    assert_eq!(state.get_cached_ai_workspace(), Some(4));
}

#[test]
fn outputs_are_isolated() {
    assert!(output_can_view("eDP-1", None));
    assert!(output_can_view("eDP-1", Some(0)));
    assert!(!output_can_view("eDP-1", Some(2)));
    assert!(!output_can_view("AI-Desktop", None));
    assert!(!output_can_view("AI-Desktop", Some(0)));
    assert!(output_can_view("AI-Desktop", Some(2)));
}

#[test]
fn clients() {
    assert!(security_context_can_view(None));
    assert!(security_context_can_view(Some(new_client())));
    assert!(!security_context_can_view(Some(confined_client())));
    assert_eq!(new_client().workspace_id, None);
    assert_eq!(workspace_client(3).workspace_id, Some(3));
    assert!(security_context_can_view(Some(workspace_client(3))));
}

#[test]
fn windows_of_surfaces() {
    let found = Rectangle::new(Point { x: 31, y: 1 }, Size { w: 10, h: 20 });
    assert_eq!(parent_geometry(&space(), 5), found);
    let none = Rectangle::new(Point { x: 0, y: 0 }, Size { w: 0, h: 0 });
    assert_eq!(parent_geometry(&space(), 9), none);
    assert_eq!(cursor_position_hint(&space(), 6, true), Some(Point { x: 32, y: 1 }));
    assert_eq!(cursor_position_hint(&space(), 9, true), Some(Point { x: 0, y: 0 }));
    assert_eq!(cursor_position_hint(&space(), 6, false), None);
    assert_eq!(keyboard_focus_for_xsurface(&space(), 6), Some(KeyboardFocusTarget::Window(32)));
    assert_eq!(keyboard_focus_for_xsurface(&space(), 9), None);
}

#[test]
fn constraints_need_the_focus() {
    assert!(new_constraint(5, Some(Some(5))));
    assert!(!new_constraint(5, Some(Some(6))));
    assert!(!new_constraint(5, Some(None)));
    assert!(!new_constraint(5, None));
}

#[test]
fn decoration_modes() {
    let plain = ToplevelState {
        size: None,
        maximized: false,
        fullscreen: false,
        resizing: false,
        decoration_mode: None,
        fullscreen_output: None,
    };
    let mut state = plain;
    new_decoration(&mut state);
    assert_eq!(state.decoration_mode, Some(DecorationMode::ServerSide));
    assert!(request_mode(true, true, &mut state));
    assert_eq!(state.decoration_mode, Some(DecorationMode::ClientSide));
    assert!(!request_mode(false, false, &mut state));
    assert_eq!(state.decoration_mode, Some(DecorationMode::ServerSide));
    request_mode(true, true, &mut state);
    assert!(unset_mode(true, &mut state));
    assert_eq!(state.decoration_mode, Some(DecorationMode::ServerSide));

    let own = ToplevelState { decoration_mode: Some(DecorationMode::ClientSide), ..plain };
    let toplevel = |surface: u64, state: ToplevelState| Toplevel { surface, state };
    let mut toplevels = vec![toplevel(1, own), toplevel(2, own), toplevel(2, own)];
    enforce_server_side(3, &mut toplevels);
    assert_eq!(toplevels, vec![toplevel(1, own), toplevel(2, own), toplevel(2, own)]);
    enforce_server_side(2, &mut toplevels);
    assert_eq!(toplevels, vec![toplevel(1, own), toplevel(2, state), toplevel(2, own)]);
}

#[test]
fn scales_of_new_surfaces() {
    let all = ScaleSources {
        own: Some(1),
        is_root: false,
        root: Some(2),
        window: Some(3),
        desktop: Some(4),
    };
    assert_eq!(new_fractional_scale(all), Some(1));
    let fresh = ScaleSources { own: None, ..all };
    assert_eq!(new_fractional_scale(fresh), Some(2));
    assert_eq!(new_fractional_scale(ScaleSources { is_root: true, ..fresh }), Some(3));
    let homeless = ScaleSources { root: None, window: None, ..fresh };
    assert_eq!(new_fractional_scale(homeless), Some(4));
    assert_eq!(new_fractional_scale(ScaleSources { desktop: None, ..homeless }), None);
}

#[test]
fn captures() {
    let constraints = capture_constraints(Some(Size { w: 640, h: 480 })).unwrap();
    assert_eq!(constraints.size, Size { w: 640, h: 480 });
    assert_eq!(constraints.shm, vec![ShmFormat::Argb8888, ShmFormat::Xrgb8888]);
    assert!(capture_constraints(None).is_none());
    assert_eq!(capture_frame(Some(3)), CaptureFrame::Queue(3));
    assert_eq!(capture_frame(None), CaptureFrame::Fail);
}
