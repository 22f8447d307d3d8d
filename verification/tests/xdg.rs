use anvil::shell::element::WindowElement;
use anvil::shell::grabs::ResizeEdge;
use anvil::shell::ssd::theme::DecorationTheme;
use anvil::shell::xdg::{
    ack_configure, fullscreen_output, fullscreen_request, grab, handle_toplevel_commit,
    maximize_request, new_toplevel, popup_root, resize_request, unconstrain_popup,
    unfullscreen_request, unmaximize_request, AckOutcome, Configure, DecorationMode, Device,
    DeviceGrab, DeviceLocations, GrabStart, KeyboardFocusTarget, MoveSurfaceGrab, NewToplevel,
    Placement, PopupGrabStep, Relocation, ResizeData, ResizeState, ResizeSurfaceGrab, SeatGrabs, StateAnswer,
    SurfaceData, ToplevelState, WindowPlace,
};
use anvil::shell::WindowSurface;
use anvil::state::{AnvilState, Features};
use anvil::utils::{Coord, Point, Position, Rectangle, Serial, Size};
use anvil::workspace::{OutputView, SpaceView, WindowView, WorkspaceEntry, Workspaces};

fn rect(x: i32, y: i32, w: i32, h: i32) -> Rectangle {
    Rectangle::new(Point { x, y }, Size { w, h })
}

fn serial(value: u32) -> Serial {
    Serial { value }
}

fn plain() -> ToplevelState {
    ToplevelState {
        size: None,
        maximized: false,
        fullscreen: false,
        resizing: false,
        decoration_mode: None,
        fullscreen_output: None,
    }
}

fn window(ssd: bool) -> WindowElement {
    let theme = DecorationTheme::defaults();
    let mut window = WindowElement::new(WindowSurface::Wayland(4), Some(4), &theme);
    window.set_ssd(ssd);
    window
}

fn output(id: u64, geometry: Option<Rectangle>, zone: Rectangle) -> OutputView {
    OutputView { id, geometry, zone }
}

fn space(outputs: Vec<OutputView>) -> SpaceView {
    SpaceView { windows: Vec::new(), outputs }
}

fn state() -> AnvilState {
    let features = Features { relative_motion: false, gestures: false, xwayland: false };
    AnvilState::init(features, "seat0".to_string(), 1, 2, None, None).state
}

fn workspaces() -> Workspaces {
    Workspaces {
        desktop: space(vec![output(1, Some(rect(0, 0, 1920, 1080)), rect(0, 40, 1920, 1040))]),
        active: 0,
        entries: vec![
            WorkspaceEntry {
                id: 3,
                space: space(vec![output(2, Some(rect(10, 20, 800, 600)), rect(1, 2, 790, 580))]),
            },
            WorkspaceEntry { id: 4, space: space(vec![output(2, None, rect(0, 0, 1, 1))]) },
            WorkspaceEntry { id: 5, space: space(Vec::new()) },
        ],
    }
}

#[test]
fn desktop_windows_are_placed_by_policy() {
    for client in [None, Some(0)] {
        let (mut element, mut pending) = (window(true), plain());
        let new = new_toplevel(client, &workspaces(), &mut element, &mut pending);
        assert_eq!(new, NewToplevel { workspace: None, placement: Placement::ByPolicy });
        assert_eq!(pending, plain());
        assert!(element.decorations.is_ssd);
    }
}

#[test]
fn workspace_windows_fill_their_output() {
    let (mut element, mut pending) = (window(true), plain());
    let new = new_toplevel(Some(3), &workspaces(), &mut element, &mut pending);
    let corner = Point { x: 11, y: 22 };
    assert_eq!(new, NewToplevel { workspace: Some(3), placement: Placement::At(corner) });
    assert!(pending.fullscreen);
    assert_eq!(pending.size, Some(Size { w: 790, h: 580 }));
    assert!(!element.decorations.is_ssd);
}

#[test]
fn workspaces_without_a_placed_output() {
    for id in [4, 5] {
        let (mut element, mut pending) = (window(true), plain());
        let new = new_toplevel(Some(id), &workspaces(), &mut element, &mut pending);
        let origin = Point { x: 0, y: 0 };
        assert_eq!(new, NewToplevel { workspace: Some(id), placement: Placement::At(origin) });
        assert_eq!(pending, plain());
        assert!(element.decorations.is_ssd);
    }
    // A workspace that is gone: the window fills the output of the desktop.
    let (mut element, mut pending) = (window(true), plain());
    let new = new_toplevel(Some(9), &workspaces(), &mut element, &mut pending);
    let corner = Point { x: 0, y: 40 };
    assert_eq!(new, NewToplevel { workspace: None, placement: Placement::At(corner) });
    assert_eq!(pending.size, Some(Size { w: 1920, h: 1040 }));
}

const OWN: GrabStart = GrabStart { on_requester: true };
const FOREIGN: GrabStart = GrabStart { on_requester: false };

fn grabs(touch: Option<GrabStart>, pointer: Option<GrabStart>) -> SeatGrabs {
    SeatGrabs { touch, has_pointer: true, pointer }
}

fn place() -> WindowPlace {
    WindowPlace { size: Size { w: 300, h: 200 }, location: Some(Point { x: 7, y: 8 }) }
}

#[test]
fn clients_resize_with_their_own_grab() {
    let idle = SurfaceData { resize_state: ResizeState::NotResizing };
    for (seat, device) in [
        (grabs(Some(OWN), None), Device::Touch),
        (grabs(Some(OWN), Some(OWN)), Device::Touch),
        (grabs(None, Some(OWN)), Device::Pointer),
    ] {
        let mut data = idle;
        let started = resize_request(seat, Some(place()), ResizeEdge::Left, &mut data);
        assert_eq!(
            started,
            Some(ResizeSurfaceGrab {
                device,
                edges: ResizeEdge::Left,
                initial_window_location: Point { x: 7, y: 8 },
                initial_window_size: Size { w: 300, h: 200 },
                last_window_size: Size { w: 300, h: 200 },
                ssd_height_offset: 0,
            })
        );
        assert_eq!(
            data.resize_state,
            ResizeState::Resizing(ResizeData {
                edges: ResizeEdge::Left,
                initial_window_location: Point { x: 7, y: 8 },
                initial_window_size: Size { w: 300, h: 200 },
            })
        );
    }
    for (seat, held) in [
        (grabs(Some(FOREIGN), Some(OWN)), Some(place())),
        (grabs(None, Some(FOREIGN)), Some(place())),
        (grabs(None, None), Some(place())),
        (grabs(Some(OWN), None), None),
    ] {
        let mut data = idle;
        assert_eq!(resize_request(seat, held, ResizeEdge::Left, &mut data), None);
        assert_eq!(data, idle);
    }
}

#[test]
fn moves_unmaximize() {
    let state = state();
    let locations = DeviceLocations {
        touch: Point { x: 100, y: 101 },
        pointer: Position { x: Coord::Between(200), y: Coord::Between(-3) },
    };
    let maximized =
        ToplevelState { maximized: true, size: Some(Size { w: 1, h: 1 }), ..plain() };
    let mut pending = maximized;
    let grab = state.move_request_xdg(grabs(None, Some(OWN)), Some(place()), locations, &mut pending);
    assert_eq!(
        grab,
        Some(MoveSurfaceGrab {
            device: Device::Pointer,
            initial_window_location: Point { x: 200, y: -2 },
            send_configure: true,
        })
    );
    assert_eq!(pending, plain());

    let mut pending = maximized;
    let grab = state.move_request_xdg(grabs(Some(OWN), None), Some(place()), locations, &mut pending);
    assert_eq!(
        grab,
        Some(MoveSurfaceGrab {
            device: Device::Touch,
            initial_window_location: Point { x: 100, y: 101 },
            send_configure: true,
        })
    );

    let mut pending = plain();
    let grab = state.move_request_xdg(grabs(Some(OWN), None), Some(place()), locations, &mut pending);
    assert_eq!(
        grab,
        Some(MoveSurfaceGrab {
            device: Device::Touch,
            initial_window_location: Point { x: 7, y: 8 },
            send_configure: false,
        })
    );
}

#[test]
fn moves_are_refused() {
    let state = state();
    let locations = DeviceLocations {
        touch: Point { x: 0, y: 0 },
        pointer: Position { x: Coord::Whole(0), y: Coord::Whole(0) },
    };
    let nowhere = WindowPlace { size: Size { w: 1, h: 1 }, location: None };
    for (seat, held) in [
        (grabs(Some(FOREIGN), Some(OWN)), Some(place())),
        (grabs(None, Some(FOREIGN)), Some(place())),
        (grabs(None, None), Some(place())),
        (grabs(None, Some(OWN)), None),
        (grabs(None, Some(OWN)), Some(nowhere)),
        (SeatGrabs { touch: None, has_pointer: false, pointer: Some(OWN) }, Some(place())),
    ] {
        let mut pending = ToplevelState { maximized: true, ..plain() };
        assert_eq!(state.move_request_xdg(seat, held, locations, &mut pending), None);
        assert!(pending.maximized);
    }
}

#[test]
fn decorations_start_resizes() {
    let state = state();
    let geo = rect(0, 0, 640, 480);
    let idle = Some(SurfaceData { resize_state: ResizeState::NotResizing });
    let mut data = idle;
    let at = Some(Point { x: 5, y: 6 });
    let grab =
        state.resize_request_ssd(&window(true), true, geo, at, ResizeEdge::Top, &mut data).unwrap();
    assert_eq!(grab.device, Device::Pointer);
    assert_eq!(grab.initial_window_size, Size { w: 640, h: 512 });
    assert_eq!(grab.initial_window_location, Point { x: 5, y: 6 });
    assert_eq!(grab.ssd_height_offset, 32);
    assert!(matches!(data.unwrap().resize_state, ResizeState::Resizing(_)));

    let mut data = idle;
    assert!(state
        .resize_request_ssd(&window(true), false, geo, at, ResizeEdge::Top, &mut data)
        .is_none());
    assert!(state
        .resize_request_ssd(&window(true), true, geo, None, ResizeEdge::Top, &mut data)
        .is_none());
    assert_eq!(data, idle);
    let mut none = None;
    assert!(state
        .resize_request_ssd(&window(true), true, geo, at, ResizeEdge::Top, &mut none)
        .is_some());
    assert_eq!(none, None);
    let mut bare = window(true);
    bare.wl_surface = None;
    assert!(state.resize_request_ssd(&bare, true, geo, at, ResizeEdge::Top, &mut data).is_some());
    assert_eq!(data, idle);
}

fn resize() -> ResizeData {
    ResizeData {
        edges: ResizeEdge::TopLeft,
        initial_window_location: Point { x: 100, y: 100 },
        initial_window_size: Size { w: 300, h: 200 },
    }
}

/// A space with one window, which shows the surface.
fn showing(surface: u64, geometry: Rectangle) -> SpaceView {
    let window = WindowView {
        id: 7,
        surface: Some(surface),
        geometry,
        location: Point { x: 1, y: 2 },
        outputs: Vec::new(),
        tree: Vec::new(),
    };
    SpaceView { windows: vec![window], outputs: Vec::new() }
}

#[test]
fn acknowledgments_finish_resizes() {
    let waiting = Some(SurfaceData {
        resize_state: ResizeState::WaitingForFinalAck(resize(), serial(10)),
    });
    let ack = |value: u32, was_resizing: bool| {
        let configure = Configure::Toplevel { serial: serial(value), state: plain() };
        ack_configure(40, configure, was_resizing, waiting, &space(Vec::new())).data
    };
    let done = Some(SurfaceData { resize_state: ResizeState::WaitingForCommit(resize()) });
    assert_eq!(ack(10, true), done);
    assert_eq!(ack(11, true), done);
    assert_eq!(ack(9, true), waiting);
    assert_eq!(ack(11, false), waiting);
    let running = Some(SurfaceData { resize_state: ResizeState::Resizing(resize()) });
    let configure = Configure::Toplevel { serial: serial(99), state: plain() };
    let desktop = showing(40, rect(0, 0, 9, 9));
    assert_eq!(ack_configure(40, configure, true, running, &desktop).data, running);
    assert_eq!(
        ack_configure(40, Configure::Popup, true, waiting, &desktop),
        AckOutcome { data: waiting, decoration: None }
    );
}

#[test]
fn acknowledgments_decide_about_decorations() {
    let ssd = |fullscreen: bool, decoration_mode: Option<DecorationMode>| {
        let state = ToplevelState { fullscreen, decoration_mode, ..plain() };
        let configure = Configure::Toplevel { serial: serial(1), state };
        let desktop = showing(40, rect(0, 0, 9, 9));
        assert_eq!(ack_configure(41, configure, false, None, &desktop).decoration, None);
        let changed = ack_configure(40, configure, false, None, &desktop).decoration?;
        assert_eq!(changed.window, 7);
        Some(changed.is_ssd)
    };
    assert_eq!(ssd(false, None), Some(true));
    assert_eq!(ssd(false, Some(DecorationMode::ServerSide)), Some(true));
    assert_eq!(ssd(false, Some(DecorationMode::ClientSide)), Some(false));
    assert_eq!(ssd(true, None), Some(false));
    assert_eq!(ssd(true, Some(DecorationMode::ServerSide)), Some(false));
}

#[test]
fn fullscreen() {
    let free = space(vec![output(8, None, rect(0, 0, 1, 1))]);
    assert_eq!(fullscreen_output(Some(3), &free), 3);
    assert_eq!(fullscreen_output(None, &free), 8);

    let (mut element, mut pending) = (window(true), ToplevelState { maximized: true, ..plain() });
    let area = Some(rect(10, 20, 800, 600));
    let bound = vec![70, 71];
    let answer = fullscreen_request(area, Some(60), Some(&bound), true, &mut element, &mut pending);
    let placed = StateAnswer { place: Some(Point { x: 10, y: 20 }), send_configure: true };
    assert_eq!(answer, placed);
    assert_eq!(
        pending,
        ToplevelState {
            fullscreen: true,
            size: Some(Size { w: 800, h: 600 }),
            fullscreen_output: Some(71),
            ..plain()
        }
    );
    assert!(!element.decorations.is_ssd);

    let (left, answer) = unfullscreen_request(false, &mut pending);
    assert_eq!(left, Some(71));
    assert_eq!(answer, StateAnswer { place: None, send_configure: false });
    assert_eq!(pending, plain());
}

#[test]
fn fullscreen_without_an_output_or_a_client() {
    let (mut element, mut pending) = (window(true), plain());
    let none = Vec::new();
    let area = Some(rect(0, 0, 1, 1));
    let answer = fullscreen_request(area, Some(60), Some(&none), false, &mut element, &mut pending);
    assert!(!answer.send_configure);
    assert_eq!(pending.fullscreen_output, Some(60));

    let (mut element, mut pending) = (window(true), plain());
    let answer = fullscreen_request(area, Some(60), None, true, &mut element, &mut pending);
    assert_eq!(answer, StateAnswer { place: None, send_configure: false });
    assert_eq!(pending, plain());
    let answer = fullscreen_request(None, Some(60), Some(&none), true, &mut element, &mut pending);
    assert_eq!(answer, StateAnswer { place: None, send_configure: true });
    assert_eq!(pending, plain());
    assert!(element.decorations.is_ssd);
}

#[test]
fn maximizing() {
    let main = output(1, Some(rect(0, 0, 1920, 1080)), rect(0, 40, 1920, 1040));
    let side = output(2, Some(rect(1920, 0, 800, 600)), rect(0, 0, 800, 600));
    let both = space(vec![main, side]);
    let mut pending = plain();
    let answer = maximize_request(Some(&window(true)), &vec![side], &both, true, &mut pending);
    let corner = Some(Point { x: 1920, y: 0 });
    assert_eq!(answer, StateAnswer { place: corner, send_configure: true });
    assert!(pending.maximized);
    assert_eq!(pending.size, Some(Size { w: 800, h: 568 }));

    let mut pending = plain();
    let answer = maximize_request(Some(&window(false)), &Vec::new(), &both, false, &mut pending);
    let corner = Some(Point { x: 0, y: 40 });
    assert_eq!(answer, StateAnswer { place: corner, send_configure: false });
    assert_eq!(pending.size, Some(Size { w: 1920, h: 1040 }));

    assert!(unmaximize_request(true, &mut pending).send_configure);
    assert_eq!(pending, plain());

    let unplaced = output(3, None, rect(0, 0, 1, 1));
    for outputs in [Vec::new(), vec![unplaced]] {
        for sent in [true, false] {
            let mut pending = plain();
            let empty = space(Vec::new());
            let element = window(true);
            let answer = maximize_request(Some(&element), &outputs, &empty, sent, &mut pending);
            assert_eq!(answer, StateAnswer { place: None, send_configure: sent });
            assert_eq!(pending, plain());
        }
    }
    let mut pending = plain();
    let answer = maximize_request(None, &vec![side], &both, true, &mut pending);
    assert_eq!(answer, StateAnswer { place: None, send_configure: true });
    assert_eq!(pending, plain());
}

#[test]
fn popup_grabs() {
    let steps = |keyboard: DeviceGrab, pointer: DeviceGrab, previous: Option<Serial>| {
        grab(Some(keyboard), Some(pointer), serial(5), previous, serial(6))
    };
    let all = vec![
        PopupGrabStep::FocusKeyboard,
        PopupGrabStep::GrabKeyboard,
        PopupGrabStep::GrabPointer,
    ];
    assert_eq!(steps(DeviceGrab::Free, DeviceGrab::Free, None), all);
    assert_eq!(steps(DeviceGrab::Held(serial(5)), DeviceGrab::Held(serial(6)), None), all);
    let previous = Some(serial(4));
    assert_eq!(steps(DeviceGrab::Held(serial(4)), DeviceGrab::Held(serial(4)), previous), all);
    assert_eq!(
        steps(DeviceGrab::HeldElsewhere, DeviceGrab::Free, None),
        vec![PopupGrabStep::UngrabAll]
    );
    // The keyboard compares with the serial of the request, the pointer with that of the grab.
    assert_eq!(
        steps(DeviceGrab::Held(serial(6)), DeviceGrab::Free, None),
        vec![PopupGrabStep::UngrabAll]
    );
    assert_eq!(
        steps(DeviceGrab::Free, DeviceGrab::Held(serial(6)), previous),
        vec![
            PopupGrabStep::FocusKeyboard,
            PopupGrabStep::GrabKeyboard,
            PopupGrabStep::UngrabAll
        ]
    );
    assert!(grab(None, None, serial(5), None, serial(6)).is_empty());
}

#[test]
fn popup_roots() {
    let window = WindowView {
        id: 40,
        surface: Some(4),
        geometry: rect(0, 0, 1, 1),
        location: Point { x: 0, y: 0 },
        outputs: Vec::new(),
        tree: Vec::new(),
    };
    let space = SpaceView { windows: vec![window], outputs: Vec::new() };
    let layers = vec![None, Some(6), Some(7)];
    assert_eq!(popup_root(4, &space, &layers), Some(KeyboardFocusTarget::Window(40)));
    assert_eq!(popup_root(6, &space, &layers), Some(KeyboardFocusTarget::LayerSurface(6)));
    assert_eq!(popup_root(6, &space, &vec![None]), None);
}

#[test]
fn popups_are_kept_on_the_outputs() {
    let outputs = vec![rect(0, 0, 1920, 1080), rect(1920, 0, 1280, 720)];
    let coords = Point { x: 10, y: 20 };
    let window_geo = rect(100, 200, 300, 400);
    assert_eq!(
        unconstrain_popup(&outputs, coords, window_geo),
        Some(rect(-110, -220, 3200, 1080))
    );
    assert_eq!(unconstrain_popup(&Vec::new(), coords, window_geo), None);
}

#[test]
fn dragged_edges_move_the_window() {
    let desktop = showing(40, rect(0, 0, 250, 260));
    let commit = |edges: ResizeEdge| {
        let data = ResizeData { edges, ..resize() };
        let kept = Some(SurfaceData { resize_state: ResizeState::Resizing(data) });
        handle_toplevel_commit(&desktop, 40, kept)
    };
    let to = |x: i32, y: i32| Some(Relocation { window: 7, place: Point { x, y } });
    // The right end stays at 400, the lower end at 300.
    assert_eq!(commit(ResizeEdge::TopLeft), to(150, 40));
    assert_eq!(commit(ResizeEdge::Left), to(150, 2));
    assert_eq!(commit(ResizeEdge::Top), to(1, 40));
    assert_eq!(commit(ResizeEdge::BottomLeft), to(150, 2));
    assert_eq!(commit(ResizeEdge::TopRight), to(1, 40));
    assert_eq!(commit(ResizeEdge::BottomRight), None);
    assert_eq!(commit(ResizeEdge::Bottom), None);
    let waiting = Some(SurfaceData { resize_state: ResizeState::WaitingForCommit(resize()) });
    assert_eq!(handle_toplevel_commit(&desktop, 40, waiting), None);
    assert_eq!(handle_toplevel_commit(&desktop, 40, None), None);
    let running = Some(SurfaceData { resize_state: ResizeState::Resizing(resize()) });
    assert_eq!(handle_toplevel_commit(&desktop, 41, running), None);
}
