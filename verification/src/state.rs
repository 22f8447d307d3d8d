//! State of the compositor, and the decisions of its protocol handlers.

use std::collections::HashMap;

use vstd::prelude::*;

use crate::shell::element::{CursorImageStatus, CursorView};
use crate::shell::snap::SnapPreview;
use crate::shell::ssd::theme::{empty_file, DecorationTheme, WindowFile};
use crate::shell::xdg::{is_decorated, DecorationMode, KeyboardFocusTarget, ToplevelState};
use crate::utils::{first_from, first_passes, first_where, Point, Rectangle, Serial, Size};
use crate::workspace::SpaceView;
use crate::{OutputId, SeatId, SurfaceId, WindowId, WorkspaceId};

verus! {

/// What the compositor knows of a client.
#[derive(Debug, Clone, Copy, PartialEq, Eq, Structural)]
pub struct ClientState {
    /// The client is confined by a security context.
    pub security_context: bool,
    /// The workspace that the client belongs to, none for the desktop. Set when the client connects
    /// through the socket of a workspace.
    pub workspace_id: Option<WorkspaceId>,
}

/// The icon of a drag.
#[derive(Debug, Clone, Copy, PartialEq, Eq, Structural)]
pub struct DndIcon {
    pub surface: SurfaceId,
    pub offset: Point,
}

/// What the backend and the build provide.
#[derive(Debug, Clone, Copy, PartialEq, Eq, Structural)]
pub struct Features {
    pub relative_motion: bool,
    pub gestures: bool,
    pub xwayland: bool,
}

/// A global that clients can bind.
#[derive(Debug, Clone, Copy, PartialEq, Eq, Structural)]
pub enum Global {
    Compositor,
    DataDevice,
    LayerShell,
    OutputManager,
    PrimarySelection,
    DataControl,
    Shm,
    Viewporter,
    XdgActivation,
    XdgDecoration,
    KdeDecoration,
    XdgShell,
    Presentation,
    FractionalScale,
    XdgForeign,
    SinglePixelBuffer,
    Fifo,
    CommitTiming,
    TextInput,
    InputMethod,
    VirtualKeyboard,
    RelativePointer,
    PointerConstraints,
    PointerGestures,
    Tablet,
    SecurityContext,
    Fixes,
    OutputCaptureSource,
    ImageCopyCapture,
    HumanSeat,
    AiSeat,
    KeyboardShortcutsInhibit,
    XwaylandShell,
    XwaylandKeyboardGrab,
    ExportOutput,
}

/// The globals in the order in which they are made. Those for relative motion and gestures are
/// only there if the backend supports them.
pub open spec fn startup_globals(features: Features) -> Seq<Global> {
    seq![
        Global::Compositor,
        Global::DataDevice,
        Global::LayerShell,
        Global::OutputManager,
        Global::PrimarySelection,
        Global::DataControl,
        Global::Shm,
        Global::Viewporter,
        Global::XdgActivation,
        Global::XdgDecoration,
        Global::KdeDecoration,
        Global::XdgShell,
        Global::Presentation,
        Global::FractionalScale,
        Global::XdgForeign,
        Global::SinglePixelBuffer,
        Global::Fifo,
        Global::CommitTiming,
        Global::TextInput,
        Global::InputMethod,
        Global::VirtualKeyboard,
    ] + if features.relative_motion {
        seq![Global::RelativePointer]
    } else {
        seq![]
    } + seq![Global::PointerConstraints] + if features.gestures {
        seq![Global::PointerGestures]
    } else {
        seq![]
    } + seq![
        Global::Tablet,
        Global::SecurityContext,
        Global::Fixes,
        Global::OutputCaptureSource,
        Global::ImageCopyCapture,
        Global::HumanSeat,
        Global::AiSeat,
        Global::KeyboardShortcutsInhibit,
    ] + if features.xwayland {
        seq![Global::XwaylandShell, Global::XwaylandKeyboardGrab]
    } else {
        seq![]
    } + seq![Global::ExportOutput]
}

fn globals(features: Features) -> (list: Vec<Global>)
    ensures
        list@ == startup_globals(features),
{
    let mut list: Vec<Global> = vec![
        Global::Compositor,
        Global::DataDevice,
        Global::LayerShell,
        Global::OutputManager,
        Global::PrimarySelection,
        Global::DataControl,
        Global::Shm,
        Global::Viewporter,
        Global::XdgActivation,
        Global::XdgDecoration,
        Global::KdeDecoration,
        Global::XdgShell,
        Global::Presentation,
        Global::FractionalScale,
        Global::XdgForeign,
        Global::SinglePixelBuffer,
        Global::Fifo,
        Global::CommitTiming,
        Global::TextInput,
        Global::InputMethod,
        Global::VirtualKeyboard,
    ];
    if features.relative_motion {
        list.push(Global::RelativePointer);
    }
    list.push(Global::PointerConstraints);
    if features.gestures {
        list.push(Global::PointerGestures);
    }
    list.push(Global::Tablet);
    list.push(Global::SecurityContext);
    list.push(Global::Fixes);
    list.push(Global::OutputCaptureSource);
    list.push(Global::ImageCopyCapture);
    list.push(Global::HumanSeat);
    list.push(Global::AiSeat);
    list.push(Global::KeyboardShortcutsInhibit);
    if features.xwayland {
        list.push(Global::XwaylandShell);
        list.push(Global::XwaylandKeyboardGrab);
    }
    list.push(Global::ExportOutput);
    assert(list@ =~= startup_globals(features));
    list
}

/// Milliseconds before a held key repeats.
pub const KEY_REPEAT_DELAY: i32 = 200;

/// Repeats of a held key in a second.
pub const KEY_REPEAT_RATE: i32 = 25;

/// A seat to make at startup, with a pointer and a keyboard.
#[derive(Debug, Clone, Copy)]
pub struct SeatConfig {
    pub name: &'static str,
    /// Milliseconds before a held key repeats.
    pub repeat_delay: i32,
    /// Repeats of a held key in a second.
    pub repeat_rate: i32,
}

/// What a start of the compositor comes to.
pub struct Startup {
    pub state: AnvilState,
    /// The globals to make, in order.
    pub globals: Vec<Global>,
    pub human_seat: SeatConfig,
    pub ai_seat: SeatConfig,
}

/// State of the compositor.
pub struct AnvilState {
    /// Name of the main socket, if the compositor listens on one.
    pub socket_name: Option<String>,
    pub running: bool,
    pub dnd_icon: Option<DndIcon>,
    /// Keys whose release is not passed on, by their symbol.
    pub suppressed_keys: Vec<u32>,
    pub cursor_status: CursorImageStatus,
    pub ai_cursor_status: CursorImageStatus,
    pub human_seat_name: String,
    pub human_seat: SeatId,
    pub ai_seat: SeatId,
    /// While set, physical input goes to the seat of this workspace.
    pub copilot_mode: Option<WorkspaceId>,
    /// While set, the workspace that the user drives.
    pub drive_mode: Option<WorkspaceId>,
    /// The surface that input goes to while the user drives a workspace.
    pub drive_mode_target: Option<SurfaceId>,
    /// The workspace that input commands without a workspace were last sent to.
    pub cached_ai_workspace: Option<WorkspaceId>,
    /// The display number of Xwayland, once it is ready.
    pub xdisplay: Option<u32>,
    pub show_window_preview: bool,
    pub decoration_theme: DecorationTheme,
    pub snap_preview: Option<SnapPreview>,
    /// Sockets of workspaces; who connects through one belongs to its workspace.
    pub workspace_sockets: HashMap<WorkspaceId, String>,
}

impl AnvilState {
    /// Makes the state of a compositor that just started, and the lists of globals and seats to make
    /// for it.
    ///
    /// `human_seat_name` is how the backend calls the seat of the user, `socket_name` the name of
    /// the main socket, `theme` what the theme file holds.
    pub fn init(
        features: Features,
        human_seat_name: String,
        human_seat: SeatId,
        ai_seat: SeatId,
        socket_name: Option<String>,
        theme: Option<WindowFile>,
    ) -> (started: Startup)
        ensures
            started.globals@ == startup_globals(features),
            started.human_seat.name@ == "human"@,
            started.ai_seat.name@ == "ai"@,
            started.human_seat.repeat_delay == KEY_REPEAT_DELAY,
            started.human_seat.repeat_rate == KEY_REPEAT_RATE,
            started.ai_seat.repeat_delay == KEY_REPEAT_DELAY,
            started.ai_seat.repeat_rate == KEY_REPEAT_RATE,
            started.human_seat.repeat_delay == 200 && started.human_seat.repeat_rate == 25,
            started.ai_seat.repeat_delay == 200 && started.ai_seat.repeat_rate == 25,
            started.state.socket_name == socket_name,
            started.state.running,
            started.state.dnd_icon is None,
            started.state.suppressed_keys@.len() == 0,
            started.state.cursor_status@ == CursorView::Named("default"@),
            started.state.ai_cursor_status@ == CursorView::Named("default"@),
            started.state.human_seat_name == human_seat_name,
            started.state.human_seat == human_seat,
            started.state.ai_seat == ai_seat,
            started.state.copilot_mode is None,
            started.state.drive_mode is None,
            started.state.drive_mode_target is None,
            started.state.cached_ai_workspace is None,
            started.state.xdisplay is None,
            !started.state.show_window_preview,
            started.state.decoration_theme.follows(
                match theme {
                    Some(file) => file,
                    None => empty_file(),
                },
            ),
            started.state.snap_preview is None,
            started.state.workspace_sockets@ == Map::<WorkspaceId, String>::empty(),
    {
        let state = AnvilState {
            socket_name,
            running: true,
            dnd_icon: None,
            suppressed_keys: Vec::new(),
            cursor_status: CursorImageStatus::default_named(),
            ai_cursor_status: CursorImageStatus::default_named(),
            human_seat_name,
            human_seat,
            ai_seat,
            copilot_mode: None,
            drive_mode: None,
            drive_mode_target: None,
            cached_ai_workspace: None,
            xdisplay: None,
            show_window_preview: false,
            decoration_theme: DecorationTheme::load(theme),
            snap_preview: None,
            workspace_sockets: HashMap::new(),
        };
        Startup {
            state,
            globals: globals(features),
            human_seat: SeatConfig {
                name: "human",
                repeat_delay: KEY_REPEAT_DELAY,
                repeat_rate: KEY_REPEAT_RATE,
            },
            ai_seat: SeatConfig {
                name: "ai",
                repeat_delay: KEY_REPEAT_DELAY,
                repeat_rate: KEY_REPEAT_RATE,
            },
        }
    }

    /// A drag starts, with or without an icon.
    pub fn dnd_requested(&mut self, icon: Option<SurfaceId>)
        ensures
            *final(self) == (AnvilState {
                dnd_icon: match icon {
                    Some(surface) => Some(DndIcon { surface, offset: Point { x: 0, y: 0 } }),
                    None => None,
                },
                ..*old(self)
            }),
    {
        self.dnd_icon =
        match icon {
            Some(surface) => Some(DndIcon { surface, offset: Point { x: 0, y: 0 } }),
            None => None,
        };
    }

    /// A drag ends.
    pub fn dropped(&mut self)
        ensures
            *final(self) == (AnvilState { dnd_icon: None, ..*old(self) }),
    {
        self.dnd_icon = None;
    }

    /// The state with another cursor image for a seat.
    pub open spec fn with_cursor(self, seat: SeatId, image: CursorImageStatus) -> AnvilState {
        if seat == self.human_seat {
            AnvilState { cursor_status: image, ..self }
        } else if seat == self.ai_seat {
            AnvilState { ai_cursor_status: image, ..self }
        } else {
            self
        }
    }

    /// A client sets the cursor image of a seat: each seat has its own.
    pub fn cursor_image(&mut self, seat: SeatId, image: CursorImageStatus)
        ensures
            *final(self) == old(self).with_cursor(seat, image),
    {
        if seat == self.human_seat {
            self.cursor_status = image;
        } else if seat == self.ai_seat {
            self.ai_cursor_status = image;
        }
    }

    /// A client sets the cursor image of a tablet tool.
    pub fn tablet_tool_image(&mut self, image: CursorImageStatus)
        ensures
            *final(self) == (AnvilState { cursor_status: image, ..*old(self) }),
    {
        self.cursor_status = image;
    }

    /// Decides if an activation token may be used: the client names a serial and a seat, the seat
    /// is that of the user, and the serial is no older than the last time that the keyboard entered
    /// a surface.
    pub fn token_created(
        &self,
        request: Option<(Serial, Option<SeatId>)>,
        last_enter: Option<Serial>,
    ) -> (valid: bool)
        ensures
            valid <==> {
                &&& request matches Some((serial, Some(seat)))
                &&& seat == self.human_seat
                &&& last_enter matches Some(entered)
                &&& serial.no_older_than(entered)
            },
    {
        match request {
            Some((serial, Some(seat))) => seat == self.human_seat && match last_enter {
                Some(entered) => serial.is_no_older_than(entered),
                None => false,
            },
            _ => false,
        }
    }

    /// Xwayland is ready.
    pub fn xwayland_ready(&mut self, display_number: u32)
        ensures
            *final(self) == (AnvilState { xdisplay: Some(display_number), ..*old(self) }),
    {
        self.xdisplay = Some(display_number);
    }

    /// The workspace that input commands without a workspace were last sent to.
    pub fn get_cached_ai_workspace(&self) -> (id: Option<WorkspaceId>)
        ensures
            id == self.cached_ai_workspace,
    {
        self.cached_ai_workspace
    }

    /// Notes the workspace that input commands without a workspace are sent to.
    pub fn set_cached_ai_workspace(&mut self, id: WorkspaceId)
        ensures
            *final(self) == (AnvilState { cached_ai_workspace: Some(id), ..*old(self) }),
    {
        self.cached_ai_workspace = Some(id);
    }
}

/// Seats are independent: an image for one seat leaves the cursor of the other.
pub proof fn seats_have_their_own_cursors(
    state: AnvilState,
    seat: SeatId,
    image: CursorImageStatus,
)
    ensures
        seat != state.human_seat ==> state.with_cursor(seat, image).cursor_status
            == state.cursor_status,
        seat != state.ai_seat || state.ai_seat == state.human_seat ==> state.with_cursor(
            seat,
            image,
        ).ai_cursor_status == state.ai_cursor_status,
{
}

/// Name of the virtual output.
pub const VIRTUAL_OUTPUT: &'static str = "AI-Desktop";

/// The client belongs to the desktop.
pub open spec fn on_desktop(client_workspace: Option<WorkspaceId>) -> bool {
    client_workspace is None || client_workspace == Some(0u32)
}

/// Whether a client sees an output: clients of the desktop see the physical outputs, clients of
/// other workspaces the virtual one.
pub open spec fn sees_output(output_name: Seq<char>, client_workspace: Option<WorkspaceId>) -> bool {
    (output_name == VIRTUAL_OUTPUT@) != on_desktop(client_workspace)
}

/// Decides if a client sees an output.
pub fn output_can_view(output_name: &str, client_workspace: Option<WorkspaceId>) -> (visible: bool)
    ensures
        visible == sees_output(output_name@, client_workspace),
{
    let is_virtual = crate::text::same(output_name, VIRTUAL_OUTPUT);
    match (is_virtual, client_workspace) {
        (true, Some(id)) => id > 0,
        (true, None) => false,
        (false, None) => true,
        (false, Some(id)) => id == 0,
    }
}

/// Desktop and workspaces are isolated: a client of one never sees an output that a client of the
/// other sees, and every client sees the virtual output or all the others.
pub proof fn outputs_are_isolated(
    output_name: Seq<char>,
    desktop_client: Option<WorkspaceId>,
    other_client: Option<WorkspaceId>,
)
    requires
        on_desktop(desktop_client),
        !on_desktop(other_client),
    ensures
        sees_output(output_name, desktop_client) != sees_output(output_name, other_client),
        sees_output(VIRTUAL_OUTPUT@, other_client),
        output_name != VIRTUAL_OUTPUT@ ==> sees_output(output_name, desktop_client),
{
}

/// Decides if a client may make security contexts: those that are not confined by one themselves,
/// and those that nothing is known of.
pub fn security_context_can_view(client: Option<ClientState>) -> (visible: bool)
    ensures
        visible == match client {
            Some(state) => !state.security_context,
            None => true,
        },
{
    match client {
        Some(state) => !state.security_context,
        None => true,
    }
}

/// A client that connects without saying more: unconfined, on the desktop.
pub fn new_client() -> (client: ClientState)
    ensures
        client == (ClientState { security_context: false, workspace_id: None }),
{
    ClientState { security_context: false, workspace_id: None }
}

/// A client that connects through a security context: confined, on the desktop.
pub fn confined_client() -> (client: ClientState)
    ensures
        client == (ClientState { security_context: true, workspace_id: None }),
{
    ClientState { security_context: true, workspace_id: None }
}

/// A client that connects through the socket of a workspace.
pub fn workspace_client(id: WorkspaceId) -> (client: ClientState)
    ensures
        client == (ClientState { security_context: false, workspace_id: Some(id) }),
{
    ClientState { security_context: false, workspace_id: Some(id) }
}

/// The geometry of the window with a surface, or an empty one at the origin.
pub open spec fn geometry_of(space: SpaceView, surface: SurfaceId) -> Rectangle {
    match space.window_of(surface) {
        Some(i) => space.windows@[i].geometry,
        None => Rectangle { loc: Point { x: 0, y: 0 }, size: Size { w: 0, h: 0 } },
    }
}

/// Gives the geometry of the parent of an input method popup.
pub fn parent_geometry(space: &SpaceView, parent: SurfaceId) -> (geometry: Rectangle)
    ensures
        geometry == geometry_of(*space, parent),
{
    match space.window_for_surface(parent) {
        Some(i) => space.windows[i].geometry,
        None => Rectangle::new(Point { x: 0, y: 0 }, Size { w: 0, h: 0 }),
    }
}

/// Gives the origin that a cursor position hint is relative to, if the hint counts: the pointer
/// constraint of the surface has to be active.
pub fn cursor_position_hint(space: &SpaceView, surface: SurfaceId, constraint_active: bool)
    -> (origin: Option<Point>)
    ensures
        origin == if constraint_active {
            Some(geometry_of(*space, surface).loc)
        } else {
            None
        },
{
    if constraint_active {
        Some(parent_geometry(space, surface).loc)
    } else {
        None
    }
}

/// Decides if a new pointer constraint is activated: its surface is the one that the pointer is on.
/// `focus` is the focus of the pointer, if it has one, with its surface, if that has one.
pub fn new_constraint(surface: SurfaceId, focus: Option<Option<SurfaceId>>) -> (activated: bool)
    ensures
        activated == (focus == Some(Some(surface))),
{
    match focus {
        Some(Some(focused)) => focused == surface,
        _ => false,
    }
}

/// Seconds for which an activation token is good.
pub const ACTIVATION_SECONDS: u64 = 10;

/// Decides which window an activation raises: the one with the surface, unless the token is too
/// old.
pub fn request_activation(token_age_seconds: u64, space: &SpaceView, surface: SurfaceId)
    -> (raised: Option<WindowId>)
    ensures
        raised == match space.window_of(surface) {
            Some(i) if token_age_seconds < ACTIVATION_SECONDS => Some(space.windows@[i].id),
            _ => None,
        },
{
    if token_age_seconds < ACTIVATION_SECONDS {
        if let Some(i) = space.window_for_surface(surface) {
            return Some(space.windows[i].id);
        }
    }
    None
}

/// Gives the keyboard focus for an X11 surface that grabs the keyboard.
pub fn keyboard_focus_for_xsurface(space: &SpaceView, surface: SurfaceId) -> (focus: Option<
    KeyboardFocusTarget,
>)
    ensures
        focus == match space.window_of(surface) {
            Some(i) => Some(KeyboardFocusTarget::Window(space.windows@[i].id)),
            None => None,
        },
{
    match space.window_for_surface(surface) {
        Some(i) => Some(KeyboardFocusTarget::Window(space.windows[i].id)),
        None => None,
    }
}

/// A toplevel that supports decorations is decorated by the compositor by default.
pub fn new_decoration(state: &mut ToplevelState)
    ensures
        *final(state) == (ToplevelState {
            decoration_mode: Some(DecorationMode::ServerSide),
            ..*old(state)
        }),
{
    state.decoration_mode = Some(DecorationMode::ServerSide);
}

/// A client asks for a decoration mode: asking to draw the decorations itself is granted, anything
/// else means the compositor. Says if a pending configure is sent at once: one that holds what
/// changed since the last configure, so none where nothing did.
pub fn request_mode(
    client_side: bool,
    initial_configure_sent: bool,
    state: &mut ToplevelState,
) -> (send_pending: bool)
    ensures
        *final(state) == (ToplevelState {
            decoration_mode: Some(
                if client_side {
                    DecorationMode::ClientSide
                } else {
                    DecorationMode::ServerSide
                },
            ),
            ..*old(state)
        }),
        send_pending == initial_configure_sent,
{
    state.decoration_mode =
    Some(
        if client_side {
            DecorationMode::ClientSide
        } else {
            DecorationMode::ServerSide
        },
    );
    initial_configure_sent
}

/// A client takes its wish back: the compositor decorates. Says if a pending configure is sent at
/// once, which is none where nothing changed since the last configure.
pub fn unset_mode(initial_configure_sent: bool, state: &mut ToplevelState) -> (send_pending: bool)
    ensures
        *final(state) == (ToplevelState {
            decoration_mode: Some(DecorationMode::ServerSide),
            ..*old(state)
        }),
        send_pending == initial_configure_sent,
{
    state.decoration_mode = Some(DecorationMode::ServerSide);
    initial_configure_sent
}

/// A toplevel surface and what it is told about itself.
#[derive(Debug, Clone, Copy, PartialEq, Eq, Structural)]
pub struct Toplevel {
    pub surface: SurfaceId,
    pub state: ToplevelState,
}

/// The toplevels with the first one that has the surface decorated by the compositor.
pub open spec fn server_side_for(toplevels: Seq<Toplevel>, surface: SurfaceId) -> Seq<Toplevel> {
    match first_where(toplevels, |toplevel: Toplevel| toplevel.surface == surface) {
        Some(i) => toplevels.update(
            i,
            Toplevel {
                state: ToplevelState {
                    decoration_mode: Some(DecorationMode::ServerSide),
                    ..toplevels[i].state
                },
                ..toplevels[i]
            },
        ),
        None => toplevels,
    }
}

/// A client uses the KDE protocol for the decorations of a surface: whatever it asks for, the
/// compositor decorates. Its toplevel, if it has one, gets the mode, so that the next acknowledged
/// configure brings the decorations.
pub fn enforce_server_side(surface: SurfaceId, toplevels: &mut Vec<Toplevel>)
    ensures
        final(toplevels)@ == server_side_for(old(toplevels)@, surface),
{
    let ghost before = toplevels@;
    let ghost test = |toplevel: Toplevel| toplevel.surface == surface;
    let mut i: usize = 0;
    while i < toplevels.len()
        invariant
            i <= toplevels@.len(),
            toplevels@ == before,
            before == old(toplevels)@,
            test == (|toplevel: Toplevel| toplevel.surface == surface),
            first_where(before, test) == first_from(before, test, i as int),
        decreases toplevels.len() - i,
    {
        let mut toplevel = toplevels[i];
        if toplevel.surface == surface {
            toplevel.state.decoration_mode = Some(DecorationMode::ServerSide);
            toplevels.set(i, toplevel);
            assert(first_where(before, test) == Some(i as int));
            assert(toplevels@ =~= server_side_for(before, surface));
            return;
        }
        i = i + 1;
    }
}

/// Clients of the KDE protocol cannot draw their own decorations: unless it is fullscreen, the
/// toplevel that they ask for is decorated.
pub proof fn kde_clients_are_decorated(toplevels: Seq<Toplevel>, surface: SurfaceId, i: int)
    requires
        first_where(toplevels, |toplevel: Toplevel| toplevel.surface == surface) == Some(i),
        !toplevels[i].state.fullscreen,
    ensures
        is_decorated(server_side_for(toplevels, surface)[i].state),
{
    first_passes(toplevels, |toplevel: Toplevel| toplevel.surface == surface, 0);
}

/// The outputs that the scale of a new surface can be taken from.
#[derive(Debug, Clone, Copy, PartialEq, Eq, Structural)]
pub struct ScaleSources {
    /// The output that the surface itself is mainly shown on.
    pub own: Option<OutputId>,
    /// The surface is the root of its tree.
    pub is_root: bool,
    /// The output that the root is mainly shown on.
    pub root: Option<OutputId>,
    /// The first output of the window with the root.
    pub window: Option<OutputId>,
    /// The first output of the desktop.
    pub desktop: Option<OutputId>,
}

/// Picks the output whose scale a new surface gets: the one it is shown on, else that of its root,
/// else the first one of its window, else the first one of the desktop.
pub fn new_fractional_scale(sources: ScaleSources) -> (output: Option<OutputId>)
    ensures
        output == if sources.own is Some {
            sources.own
        } else if !sources.is_root && sources.root is Some {
            sources.root
        } else if sources.window is Some {
            sources.window
        } else {
            sources.desktop
        },
{
    if sources.own.is_some() {
        return sources.own;
    }
    if !sources.is_root {
        if sources.root.is_some() {
            return sources.root;
        }
    }
    if sources.window.is_some() {
        return sources.window;
    }
    sources.desktop
}

/// A shared memory pixel format.
#[derive(Debug, Clone, Copy, PartialEq, Eq, Structural)]
pub enum ShmFormat {
    Argb8888,
    Xrgb8888,
}

/// What buffers of a screen capture have to be like.
pub struct BufferConstraints {
    pub size: Size,
    pub shm: Vec<ShmFormat>,
}

/// Gives the constraints for captures of an output, which has to be there and to have a mode.
pub fn capture_constraints(mode_size: Option<Size>) -> (constraints: Option<BufferConstraints>)
    ensures
        constraints is Some <==> mode_size is Some,
        constraints matches Some(given) ==> {
            &&& Some(given.size) == mode_size
            &&& given.shm@ == seq![ShmFormat::Argb8888, ShmFormat::Xrgb8888]
        },
{
    match mode_size {
        Some(size) => {
            let shm = vec![ShmFormat::Argb8888, ShmFormat::Xrgb8888];
            assert(shm@ =~= seq![ShmFormat::Argb8888, ShmFormat::Xrgb8888]);
            Some(BufferConstraints { size, shm })
        },
        None => None,
    }
}

/// What becomes of a frame that a capture asks for.
#[derive(Debug, Clone, Copy, PartialEq, Eq, Structural)]
pub enum CaptureFrame {
    /// Rendered with the mirror of a workspace in the next pass.
    Queue(WorkspaceId),
    Fail,
}

/// Decides about a frame: only outputs that mirror a workspace can be captured. `mirrored` is the
/// workspace that the captured output mirrors, if the output is still there and mirrors one.
pub fn capture_frame(mirrored: Option<WorkspaceId>) -> (decision: CaptureFrame)
    ensures
        decision == match mirrored {
            Some(id) => CaptureFrame::Queue(id),
            None => CaptureFrame::Fail,
        },
{
    match mirrored {
        Some(id) => CaptureFrame::Queue(id),
        None => CaptureFrame::Fail,
    }
}

/// Every global is made at startup, except that those for relative motion and for gestures need a
/// backend with that feature, and those for Xwayland a build with it. None is made twice.
pub proof fn globals_follow_the_features(features: Features, global: Global)
    ensures
        startup_globals(features).contains(global) <==> {
            &&& global is RelativePointer ==> features.relative_motion
            &&& global is PointerGestures ==> features.gestures
            &&& global is XwaylandShell || global is XwaylandKeyboardGrab ==> features.xwayland
        },
        startup_globals(features).len() == 31 + (if features.relative_motion {
            1int
        } else {
            0
        }) + (if features.gestures {
            1int
        } else {
            0
        }) + (if features.xwayland {
            2int
        } else {
            0
        }),
{
    let list = startup_globals(features);
    let a: int = if features.relative_motion {
        1
    } else {
        0
    };
    let b: int = if features.gestures {
        1
    } else {
        0
    };
    let c: int = if features.xwayland {
        2
    } else {
        0
    };
    assert(list[0] == Global::Compositor && list[1] == Global::DataDevice);
    assert(list[2] == Global::LayerShell && list[3] == Global::OutputManager);
    assert(list[4] == Global::PrimarySelection && list[5] == Global::DataControl);
    assert(list[6] == Global::Shm && list[7] == Global::Viewporter);
    assert(list[8] == Global::XdgActivation && list[9] == Global::XdgDecoration);
    assert(list[10] == Global::KdeDecoration && list[11] == Global::XdgShell);
    assert(list[12] == Global::Presentation && list[13] == Global::FractionalScale);
    assert(list[14] == Global::XdgForeign && list[15] == Global::SinglePixelBuffer);
    assert(list[16] == Global::Fifo && list[17] == Global::CommitTiming);
    assert(list[18] == Global::TextInput && list[19] == Global::InputMethod);
    assert(list[20] == Global::VirtualKeyboard);
    assert(features.relative_motion ==> list[21] == Global::RelativePointer);
    assert(list[21 + a] == Global::PointerConstraints);
    assert(features.gestures ==> list[22 + a] == Global::PointerGestures);
    assert(list[22 + a + b] == Global::Tablet && list[23 + a + b] == Global::SecurityContext);
    assert(list[24 + a + b] == Global::Fixes && list[25 + a + b] == Global::OutputCaptureSource);
    assert(list[26 + a + b] == Global::ImageCopyCapture && list[27 + a + b] == Global::HumanSeat);
    assert(list[28 + a + b] == Global::AiSeat);
    assert(list[29 + a + b] == Global::KeyboardShortcutsInhibit);
    assert(features.xwayland ==> list[30 + a + b] == Global::XwaylandShell && list[31 + a + b]
        == Global::XwaylandKeyboardGrab);
    assert(list[30 + a + b + c] == Global::ExportOutput);
}

/// A client that sets the cursor image of a seat sets that of the seat and leaves everything else.
pub proof fn cursor_images_go_to_their_seat(
    state: AnvilState,
    seat: SeatId,
    image: CursorImageStatus,
)
    ensures
        ({
            let after = state.with_cursor(seat, image);
            &&& seat == state.human_seat ==> after.cursor_status == image
            &&& seat == state.ai_seat && seat != state.human_seat ==> after.ai_cursor_status == image
            &&& seat != state.human_seat && seat != state.ai_seat ==> after == state
            &&& after.human_seat == state.human_seat
            &&& after.ai_seat == state.ai_seat
            &&& after.running == state.running
            &&& after.dnd_icon == state.dnd_icon
            &&& after.drive_mode == state.drive_mode
            &&& after.drive_mode_target == state.drive_mode_target
            &&& after.workspace_sockets == state.workspace_sockets
        }),
{
}

/// The virtual output is seen by the clients of workspaces other than the desktop, and by no others;
/// every other output is seen by the clients of the desktop, and by no others. The desktop is
/// workspace zero or none at all.
pub proof fn outputs_are_seen_by_their_clients(output_name: Seq<char>, id: WorkspaceId)
    ensures
        sees_output("AI-Desktop"@, Some(id)) <==> id != 0,
        !sees_output("AI-Desktop"@, None),
        output_name != "AI-Desktop"@ ==> sees_output(output_name, None),
        output_name != "AI-Desktop"@ ==> (sees_output(output_name, Some(id)) <==> id == 0),
{
}

/// The geometry for a surface is that of the first window that has it, and empty at the origin if no
/// window has it.
pub proof fn geometries_are_found_by_surface(space: SpaceView, surface: SurfaceId, i: int)
    ensures
        0 <= i < space.windows@.len() && space.windows@[i].surface == Some(surface) && (forall|j: int|
            0 <= j < i ==> (#[trigger] space.windows@[j]).surface != Some(surface)) ==> geometry_of(
            space,
            surface,
        ) == space.windows@[i].geometry,
        (forall|j: int|
            0 <= j < space.windows@.len() ==> (#[trigger] space.windows@[j]).surface != Some(surface))
            ==> geometry_of(space, surface) == (Rectangle {
            loc: Point { x: 0, y: 0 },
            size: Size { w: 0, h: 0 },
        }),
{
    crate::workspace::windows_are_found_by_surface(space, surface);
}

/// A client of the KDE protocol changes the decoration mode of the first toplevel with its surface, and
/// nothing else of that toplevel nor of any other.
pub proof fn kde_clients_change_their_toplevel_alone(
    toplevels: Seq<Toplevel>,
    surface: SurfaceId,
    i: int,
)
    requires
        0 <= i < toplevels.len(),
    ensures
        ({
            let after = server_side_for(toplevels, surface);
            let first = toplevels[i].surface == surface && forall|j: int|
                0 <= j < i ==> (#[trigger] toplevels[j]).surface != surface;
            &&& after.len() == toplevels.len()
            &&& first ==> after[i].state.decoration_mode == Some(DecorationMode::ServerSide)
            &&& !first ==> after[i] == toplevels[i]
            &&& after[i].surface == toplevels[i].surface
            &&& after[i].state.size == toplevels[i].state.size
            &&& after[i].state.maximized == toplevels[i].state.maximized
            &&& after[i].state.fullscreen == toplevels[i].state.fullscreen
            &&& after[i].state.resizing == toplevels[i].state.resizing
            &&& after[i].state.fullscreen_output == toplevels[i].state.fullscreen_output
        }),
{
    first_passes(toplevels, |toplevel: Toplevel| toplevel.surface == surface, 0);
}

} // verus!
