//! Toplevels and popups: placement, configuration, moves and resizes.

use vstd::prelude::*;

use super::element::WindowElement;
use super::grabs::ResizeEdge;
use super::ssd::{WindowState, HEADER_BAR_HEIGHT};
use crate::state::AnvilState;
use crate::utils::{in_i32, Coord, Point, Position, Rectangle, Serial, Size};
use crate::workspace::{OutputView, SpaceView, Workspaces};
use crate::{OutputId, SurfaceId, WindowId, WorkspaceId};

verus! {

/// An output as a client has bound it.
pub type WlOutputId = u64;

/// Who draws the decorations of a toplevel.
#[derive(Debug, Clone, Copy, PartialEq, Eq, Structural)]
pub enum DecorationMode {
    ClientSide,
    ServerSide,
}

/// What a toplevel is told about itself in a configure.
#[derive(Debug, Clone, Copy, PartialEq, Eq, Structural)]
pub struct ToplevelState {
    pub size: Option<Size>,
    pub maximized: bool,
    pub fullscreen: bool,
    pub resizing: bool,
    pub decoration_mode: Option<DecorationMode>,
    pub fullscreen_output: Option<WlOutputId>,
}

/// How a resize began.
#[derive(Debug, Clone, Copy, PartialEq, Eq, Structural)]
pub struct ResizeData {
    pub edges: ResizeEdge,
    pub initial_window_location: Point,
    pub initial_window_size: Size,
}

/// Where a surface is in the course of a resize.
#[derive(Debug, Clone, Copy, PartialEq, Eq, Structural)]
pub enum ResizeState {
    NotResizing,
    Resizing(ResizeData),
    /// The resize ended; the client has yet to acknowledge the configure with this serial.
    WaitingForFinalAck(ResizeData, Serial),
    /// The client acknowledged the end of the resize and has yet to commit.
    WaitingForCommit(ResizeData),
}

/// What is kept of a toplevel surface between its requests.
#[derive(Debug, Clone, Copy, PartialEq, Eq, Structural)]
pub struct SurfaceData {
    pub resize_state: ResizeState,
}

/// The free area of an output on its space.
pub open spec fn free_area(output: OutputView) -> Option<Rectangle> {
    match output.geometry {
        Some(geo) => Some(
            Rectangle { loc: geo.loc.moved(output.zone.loc), size: output.zone.size },
        ),
        None => None,
    }
}

fn area_of(output: &OutputView) -> (area: Option<Rectangle>)
    ensures
        area == free_area(*output),
{
    match output.geometry {
        Some(geo) => Some(Rectangle::new(geo.loc.plus(output.zone.loc), output.zone.size)),
        None => None,
    }
}

/// Where a new window goes on its space.
#[derive(Debug, Clone, Copy, PartialEq, Eq, Structural)]
pub enum Placement {
    /// At a fixed place, and activated.
    At(Point),
    /// Where the placement policy of the desktop puts it.
    ByPolicy,
}

/// The space that a new window goes to, and its place there.
#[derive(Debug, Clone, Copy, PartialEq, Eq, Structural)]
pub struct NewToplevel {
    /// The workspace, or none for the desktop.
    pub workspace: Option<WorkspaceId>,
    pub placement: Placement,
}

/// The area that a window of a client fills at once: the free area of the first output, for
/// clients of a workspace other than the desktop.
pub open spec fn filled_area(client_workspace: Option<WorkspaceId>, workspaces: Workspaces)
    -> Option<Rectangle> {
    let space = workspaces.space_or_desktop_of(client_workspace);
    match client_workspace {
        Some(id) if id > 0 => if space.outputs@.len() > 0 {
            free_area(space.outputs@[0])
        } else {
            None
        },
        _ => None,
    }
}

/// The workspace that a new window goes to.
pub open spec fn routed_to(client_workspace: Option<WorkspaceId>, workspaces: Workspaces) -> Option<
    WorkspaceId,
> {
    match client_workspace {
        Some(id) if workspaces.space_of(id) is Some => Some(id),
        _ => None,
    }
}

/// Routes a new toplevel to the workspace of its client.
///
/// On the desktop the placement policy places it. On another workspace it fills the output: it
/// becomes fullscreen, without decorations, at the origin of the free area.
pub fn new_toplevel(
    client_workspace: Option<WorkspaceId>,
    workspaces: &Workspaces,
    window: &mut WindowElement,
    state: &mut ToplevelState,
) -> (new: NewToplevel)
    ensures
        new.workspace == routed_to(client_workspace, *workspaces),
        new.placement == match client_workspace {
            Some(id) if id > 0 => match filled_area(client_workspace, *workspaces) {
                Some(area) => Placement::At(area.loc),
                None => Placement::At(Point { x: 0, y: 0 }),
            },
            _ => Placement::ByPolicy,
        },
        match filled_area(client_workspace, *workspaces) {
            Some(area) => {
                &&& *final(state) == (ToplevelState {
                    fullscreen: true,
                    size: Some(area.size),
                    ..*old(state)
                })
                &&& *final(window) == (WindowElement {
                    decorations: WindowState { is_ssd: false, ..old(window).decorations },
                    ..*old(window)
                })
            },
            None => *final(state) == *old(state) && *final(window) == *old(window),
        },
{
    let space = workspaces.space_or_desktop(client_workspace);
    let workspace = match client_workspace {
        Some(id) => if workspaces.get_space(id).is_some() {
            Some(id)
        } else {
            None
        },
        None => None,
    };
    let id: WorkspaceId = match client_workspace {
        Some(id) => id,
        None => 0,
    };
    if id > 0 {
        let area = if space.outputs.len() > 0 {
            area_of(&space.outputs[0])
        } else {
            None
        };
        if let Some(area) = area {
            state.fullscreen = true;
            state.size = Some(area.size);
            window.set_ssd(false);
            NewToplevel { workspace, placement: Placement::At(area.loc) }
        } else {
            NewToplevel { workspace, placement: Placement::At(Point { x: 0, y: 0 }) }
        }
    } else {
        NewToplevel { workspace, placement: Placement::ByPolicy }
    }
}

/// The device of an interactive move or resize.
#[derive(Debug, Clone, Copy, PartialEq, Eq, Structural)]
pub enum Device {
    Touch,
    Pointer,
}

/// How a grab of a device began.
#[derive(Debug, Clone, Copy, PartialEq, Eq, Structural)]
pub struct GrabStart {
    /// The grab began on a surface of the client that now asks for a move or resize.
    pub on_requester: bool,
}

/// The devices of a seat, with the grabs that have the serial of a request.
#[derive(Debug, Clone, Copy, PartialEq, Eq, Structural)]
pub struct SeatGrabs {
    pub touch: Option<GrabStart>,
    pub has_pointer: bool,
    pub pointer: Option<GrabStart>,
}

impl SeatGrabs {
    /// The grab that a request is about: that of touch, or else that of the pointer.
    pub open spec fn asked_about(self) -> Option<(Device, GrabStart)> {
        match self.touch {
            Some(start) => Some((Device::Touch, start)),
            None => match self.pointer {
                Some(start) if self.has_pointer => Some((Device::Pointer, start)),
                _ => None,
            },
        }
    }

    /// The device that a request of the client may use.
    pub open spec fn device(self) -> Option<Device> {
        match self.asked_about() {
            Some((device, start)) if start.on_requester => Some(device),
            _ => None,
        }
    }
}

/// Where a window is: its size with decorations, and its place on the desktop if it is there.
#[derive(Debug, Clone, Copy, PartialEq, Eq, Structural)]
pub struct WindowPlace {
    pub size: Size,
    pub location: Option<Point>,
}

/// An interactive resize to start.
#[derive(Debug, Clone, Copy, PartialEq, Eq, Structural)]
pub struct ResizeSurfaceGrab {
    pub device: Device,
    pub edges: ResizeEdge,
    pub initial_window_location: Point,
    pub initial_window_size: Size,
    pub last_window_size: Size,
    /// What to subtract from the height in configures, for the client to get its own height.
    pub ssd_height_offset: i32,
}

/// The resize that starts with a window where it is now.
pub open spec fn resize_from(
    device: Device,
    edges: ResizeEdge,
    location: Point,
    size: Size,
    ssd_height_offset: i32,
) -> ResizeSurfaceGrab {
    ResizeSurfaceGrab {
        device,
        edges,
        initial_window_location: location,
        initial_window_size: size,
        last_window_size: size,
        ssd_height_offset,
    }
}

/// The surface data of a surface that is being resized.
pub open spec fn resizing_data(grab: ResizeSurfaceGrab) -> SurfaceData {
    SurfaceData {
        resize_state: ResizeState::Resizing(
            ResizeData {
                edges: grab.edges,
                initial_window_location: grab.initial_window_location,
                initial_window_size: grab.initial_window_size,
            },
        ),
    }
}

/// The resize that a client may start.
pub open spec fn client_resize(grabs: SeatGrabs, window: Option<WindowPlace>, edges: ResizeEdge)
    -> Option<ResizeSurfaceGrab> {
    match (grabs.device(), window) {
        (Some(device), Some(place)) => Some(
            resize_from(device, edges, place.location->0, place.size, 0),
        ),
        _ => None,
    }
}

fn start_resize(
    device: Device,
    edges: ResizeEdge,
    location: Point,
    size: Size,
    ssd_height_offset: i32,
) -> (started: (SurfaceData, ResizeSurfaceGrab))
    ensures
        started.1 == resize_from(device, edges, location, size, ssd_height_offset),
        started.0 == resizing_data(started.1),
        started.1.device == device,
        started.1.edges == edges,
        started.1.initial_window_location == location,
        started.1.initial_window_size == size,
        started.1.last_window_size == size,
        started.1.ssd_height_offset == ssd_height_offset,
        started.0.resize_state == ResizeState::Resizing(
            ResizeData { edges, initial_window_location: location, initial_window_size: size },
        ),
{
    let data = SurfaceData {
        resize_state: ResizeState::Resizing(
            ResizeData {
                edges,
                initial_window_location: location,
                initial_window_size: size,
            },
        ),
    };
    let grab = ResizeSurfaceGrab {
        device,
        edges,
        initial_window_location: location,
        initial_window_size: size,
        last_window_size: size,
        ssd_height_offset,
    };
    (data, grab)
}

/// Answers the request of a client to resize its toplevel.
///
/// A resize starts if touch, or else the pointer, has a grab with the serial of the request that
/// began on a surface of the client. `data` is what is kept of the surface.
pub fn resize_request(
    grabs: SeatGrabs,
    window: Option<WindowPlace>,
    edges: ResizeEdge,
    data: &mut SurfaceData,
) -> (grab: Option<ResizeSurfaceGrab>)
    requires
        grabs.touch is None ==> grabs.has_pointer,
        grabs.touch is None && grabs.pointer is Some ==> window is Some,
        grabs.device() is Some && window is Some ==> window->0.location is Some,
    ensures
        grab == client_resize(grabs, window, edges),
        *final(data) == match grab {
            Some(started) => resizing_data(started),
            None => *old(data),
        },
        grab matches Some(started) ==> {
            &&& started.edges == edges
            &&& Some(started.initial_window_location) == window->0.location
            &&& started.initial_window_size == window->0.size
            &&& started.last_window_size == window->0.size
            &&& started.ssd_height_offset == 0
            &&& final(data).resize_state matches ResizeState::Resizing(kept) && {
                &&& kept.edges == edges
                &&& Some(kept.initial_window_location) == window->0.location
                &&& kept.initial_window_size == window->0.size
            }
        },
{
    if let Some(start) = grabs.touch {
        // The client may have disconnected since.
        let place = match window {
            Some(place) => place,
            None => {
                return None;
            },
        };
        if !start.on_requester {
            return None;
        }
        let location = place.location.unwrap();
        let (resizing, grab) = start_resize(Device::Touch, edges, location, place.size, 0);
        *data = resizing;
        return Some(grab);
    }
    let start = match grabs.pointer {
        Some(start) => start,
        None => {
            return None;
        },
    };
    let place = window.unwrap();
    if !start.on_requester {
        return None;
    }
    let location = place.location.unwrap();
    let (resizing, grab) = start_resize(Device::Pointer, edges, location, place.size, 0);
    *data = resizing;
    Some(grab)
}

/// An interactive move to start.
#[derive(Debug, Clone, Copy, PartialEq, Eq, Structural)]
pub struct MoveSurfaceGrab {
    pub device: Device,
    pub initial_window_location: Point,
    /// The window was maximized and is not any more: its client has to be told.
    pub send_configure: bool,
}

/// Where a device is when a move starts.
#[derive(Debug, Clone, Copy, PartialEq, Eq, Structural)]
pub struct DeviceLocations {
    /// Where the touch began, rounded to whole pixels.
    pub touch: Point,
    /// Where the pointer is.
    pub pointer: Position,
}

impl DeviceLocations {
    pub open spec fn of(self, device: Device) -> Point {
        match device {
            Device::Touch => self.touch,
            Device::Pointer => Point {
                x: self.pointer.x.truncated() as i32,
                y: self.pointer.y.truncated() as i32,
            },
        }
    }
}

/// The move that a client may start. A maximized window jumps to the device.
pub open spec fn client_move(
    grabs: SeatGrabs,
    window: Option<WindowPlace>,
    locations: DeviceLocations,
    maximized: bool,
) -> Option<MoveSurfaceGrab> {
    match (grabs.device(), window) {
        (Some(device), Some(place)) => match place.location {
            Some(location) => Some(
                MoveSurfaceGrab {
                    device,
                    initial_window_location: if maximized {
                        locations.of(device)
                    } else {
                        location
                    },
                    send_configure: maximized,
                },
            ),
            None => None,
        },
        _ => None,
    }
}

impl AnvilState {
    /// Answers a request to move a toplevel.
    ///
    /// A move starts if touch, or else the pointer, has a grab with the serial of the request that
    /// began on a surface of the client, and the window is on the desktop. A maximized window is
    /// unmaximized first.
    pub fn move_request_xdg(
        &self,
        grabs: SeatGrabs,
        window: Option<WindowPlace>,
        locations: DeviceLocations,
        state: &mut ToplevelState,
    ) -> (grab: Option<MoveSurfaceGrab>)
        ensures
            grab == client_move(grabs, window, locations, old(state).maximized),
            *final(state) == if grab is Some && old(state).maximized {
                ToplevelState { maximized: false, size: None, ..*old(state) }
            } else {
                *old(state)
            },
    {
        let (device, start) = match grabs.touch {
            Some(start) => (Device::Touch, start),
            None => {
                if !grabs.has_pointer {
                    return None;
                }
                match grabs.pointer {
                    Some(start) => (Device::Pointer, start),
                    None => {
                        return None;
                    },
                }
            },
        };
        let place = match window {
            Some(place) => place,
            None => {
                return None;
            },
        };
        if !start.on_requester {
            return None;
        }
        let mut initial_window_location = match place.location {
            Some(location) => location,
            None => {
                return None;
            },
        };
        let changed = state.maximized;
        if changed {
            state.maximized = false;
            state.size = None;
            initial_window_location =
            match device {
                Device::Touch => locations.touch,
                Device::Pointer => Point {
                    x: locations.pointer.x.truncate(),
                    y: locations.pointer.y.truncate(),
                },
            };
        }
        Some(MoveSurfaceGrab { device, initial_window_location, send_configure: changed })
    }
}

impl AnvilState {
    /// Starts a resize from the decorations of a window.
    ///
    /// `pointer_grabbed` is whether the seat has a pointer with a grab that has the serial of the
    /// request, `location` the place of the window on the desktop, `inner_geo` the geometry of the
    /// client, `data` what is kept of the surface, if the window has one.
    pub fn resize_request_ssd(
        &self,
        window: &WindowElement,
        pointer_grabbed: bool,
        inner_geo: Rectangle,
        location: Option<Point>,
        edges: ResizeEdge,
        data: &mut Option<SurfaceData>,
    ) -> (grab: Option<ResizeSurfaceGrab>)
        requires
            pointer_grabbed ==> in_i32(inner_geo.size.h + window.top_offset()),
        ensures
            grab == match location {
                Some(location) if pointer_grabbed => Some(
                    resize_from(
                        Device::Pointer,
                        edges,
                        location,
                        Size {
                            w: inner_geo.size.w,
                            h: (inner_geo.size.h + window.top_offset()) as i32,
                        },
                        HEADER_BAR_HEIGHT,
                    ),
                ),
                _ => None,
            },
            *final(data) == match (grab, *old(data)) {
                (Some(started), Some(_)) if window.wl_surface is Some => Some(resizing_data(started)),
                _ => *old(data),
            },
            grab matches Some(started) ==> {
                &&& started.device == Device::Pointer
                &&& started.edges == edges
                &&& Some(started.initial_window_location) == location
                &&& started.initial_window_size == started.last_window_size
                &&& started.initial_window_size.w == inner_geo.size.w
                &&& started.initial_window_size.h == inner_geo.size.h + window.top_offset()
                &&& started.ssd_height_offset == HEADER_BAR_HEIGHT
                &&& *old(data) is Some && window.wl_surface is Some ==> *final(data) == Some(
                    SurfaceData {
                        resize_state: ResizeState::Resizing(
                            ResizeData {
                                edges,
                                initial_window_location: location->0,
                                initial_window_size: started.initial_window_size,
                            },
                        ),
                    },
                )
            },
    {
        if !pointer_grabbed {
            return None;
        }
        // The full geometry, so that it compares with the geometry of the window later on.
        let geometry = window.geometry(inner_geo);
        let location = match location {
            Some(location) => location,
            None => {
                return None;
            },
        };
        let (resizing, grab) = start_resize(
            Device::Pointer,
            edges,
            location,
            geometry.size,
            HEADER_BAR_HEIGHT,
        );
        if window.wl_surface().is_some() {
            if data.is_some() {
                *data = Some(resizing);
            }
        }
        Some(grab)
    }
}

/// A configure that a client acknowledges.
#[derive(Debug, Clone, Copy, PartialEq, Eq, Structural)]
pub enum Configure {
    Toplevel { serial: Serial, state: ToplevelState },
    Popup,
}

/// Whether a window is decorated from now on.
#[derive(Debug, Clone, Copy, PartialEq, Eq, Structural)]
pub struct Redecoration {
    pub window: WindowId,
    pub is_ssd: bool,
}

/// What follows from an acknowledged configure.
#[derive(Debug, Clone, Copy, PartialEq, Eq, Structural)]
pub struct AckOutcome {
    /// What is kept of the surface from now on.
    pub data: Option<SurfaceData>,
    /// The window whose decorations change, if any.
    pub decoration: Option<Redecoration>,
}

/// The resize state after an acknowledged configure: the end of a resize is acknowledged by a
/// configure that is no older than the final one, from a surface that was resizing until then.
pub open spec fn acked_resize_state(state: ResizeState, serial: Serial, was_resizing: bool)
    -> ResizeState {
    match state {
        ResizeState::WaitingForFinalAck(data, awaited) => if serial.no_older_than(awaited)
            && was_resizing {
            ResizeState::WaitingForCommit(data)
        } else {
            state
        },
        _ => state,
    }
}

/// A toplevel with this state is decorated: it is not fullscreen, and its client did not ask to
/// draw the decorations itself.
pub open spec fn is_decorated(state: ToplevelState) -> bool {
    !state.fullscreen && state.decoration_mode != Some(DecorationMode::ClientSide)
}

/// Handles the acknowledgment of a configure by a surface.
///
/// It may end a resize, and decides about the decorations of the window on the desktop that shows
/// the surface. `was_resizing` is whether the last acknowledged configure before this one told the
/// surface that it is being resized.
pub fn ack_configure(
    surface: SurfaceId,
    configure: Configure,
    was_resizing: bool,
    data: Option<SurfaceData>,
    desktop: &SpaceView,
) -> (outcome: AckOutcome)
    ensures
        outcome.data == match (configure, data) {
            (Configure::Toplevel { serial, .. }, Some(kept)) => Some(
                SurfaceData {
                    resize_state: acked_resize_state(kept.resize_state, serial, was_resizing),
                },
            ),
            _ => data,
        },
        outcome.decoration == match (configure, desktop.window_of(surface)) {
            (Configure::Toplevel { state, .. }, Some(i)) => Some(
                Redecoration { window: desktop.windows@[i].id, is_ssd: is_decorated(state) },
            ),
            _ => None,
        },
{
    match configure {
        Configure::Popup => AckOutcome { data, decoration: None },
        Configure::Toplevel { serial, state } => {
            let mut after = data;
            if let Some(kept) = data {
                if let ResizeState::WaitingForFinalAck(resize_data, awaited) = kept.resize_state {
                    if serial.is_no_older_than(awaited) && was_resizing {
                        after =
                        Some(
                            SurfaceData {
                                resize_state: ResizeState::WaitingForCommit(resize_data),
                            },
                        );
                    }
                }
            }
            let decoration = if let Some(i) = desktop.window_for_surface(surface) {
                // Without the test for fullscreen the decorations would come back with the next
                // configure of a fullscreen window.
                let is_ssd = if state.fullscreen {
                    false
                } else {
                    match state.decoration_mode {
                        Some(mode) => mode == DecorationMode::ServerSide,
                        None => true,
                    }
                };
                Some(Redecoration { window: desktop.windows[i].id, is_ssd })
            } else {
                None
            };
            AckOutcome { data: after, decoration }
        },
    }
}

/// Picks the output for a fullscreen window: the one that the client named, or else the first one
/// of the space.
pub fn fullscreen_output(named: Option<OutputId>, space: &SpaceView) -> (output: OutputId)
    requires
        named is Some || space.outputs@.len() > 0,
    ensures
        output == match named {
            Some(named) => named,
            None => space.outputs@[0].id,
        },
{
    match named {
        Some(named) => named,
        None => space.outputs[0].id,
    }
}

/// What is left to do for a request on the state of a toplevel.
#[derive(Debug, Clone, Copy, PartialEq, Eq, Structural)]
pub struct StateAnswer {
    /// Where to place the window, activated.
    pub place: Option<Point>,
    /// The client is sent a configure at once.
    pub send_configure: bool,
}

/// The output that a fullscreen configure names: as the client has bound it last, or else as the
/// client named it.
pub open spec fn bound_output(named: Option<WlOutputId>, bound: Seq<WlOutputId>) -> Option<
    WlOutputId,
> {
    if bound.len() > 0 {
        Some(bound.last())
    } else {
        named
    }
}

/// Answers the request of a client to make its toplevel fullscreen.
///
/// `geometry` is that of the output, if there is one, `named` the output that the client named,
/// `bound` how the client has bound the output, or none if the client is gone. Except for a client
/// that is gone, a configure is sent in any case, now or with the initial configure.
pub fn fullscreen_request(
    geometry: Option<Rectangle>,
    named: Option<WlOutputId>,
    bound: Option<&Vec<WlOutputId>>,
    initial_configure_sent: bool,
    window: &mut WindowElement,
    state: &mut ToplevelState,
) -> (answer: StateAnswer)
    ensures
        match (geometry, bound) {
            (Some(area), Some(outputs)) => {
                &&& *final(state) == (ToplevelState {
                    maximized: false,
                    fullscreen: true,
                    size: Some(area.size),
                    fullscreen_output: bound_output(named, outputs@),
                    ..*old(state)
                })
                &&& *final(window) == (WindowElement {
                    decorations: WindowState { is_ssd: false, ..old(window).decorations },
                    ..*old(window)
                })
                &&& answer == (StateAnswer {
                    place: Some(area.loc),
                    send_configure: initial_configure_sent,
                })
            },
            (geometry, bound) => {
                &&& *final(state) == *old(state)
                &&& *final(window) == *old(window)
                &&& answer == (StateAnswer {
                    place: None,
                    send_configure: geometry is None && initial_configure_sent,
                })
            },
        },
{
    let mut place: Option<Point> = None;
    if let Some(area) = geometry {
        let outputs = match bound {
            Some(outputs) => outputs,
            None => {
                return StateAnswer { place: None, send_configure: false };
            },
        };
        let output = if outputs.len() > 0 {
            Some(outputs[outputs.len() - 1])
        } else {
            named
        };
        window.set_ssd(false);
        state.maximized = false;
        state.fullscreen = true;
        state.size = Some(area.size);
        state.fullscreen_output = output;
        place = Some(area.loc);
    }
    StateAnswer { place, send_configure: initial_configure_sent }
}

/// Answers the request of a client to end fullscreen. Gives the output that the window leaves.
pub fn unfullscreen_request(initial_configure_sent: bool, state: &mut ToplevelState) -> (answer: (
    Option<WlOutputId>,
    StateAnswer,
))
    ensures
        *final(state) == (ToplevelState {
            fullscreen: false,
            size: None,
            fullscreen_output: None,
            ..*old(state)
        }),
        answer.0 == old(state).fullscreen_output,
        answer.1 == (StateAnswer { place: None, send_configure: initial_configure_sent }),
{
    state.fullscreen = false;
    state.size = None;
    let left = state.fullscreen_output;
    state.fullscreen_output = None;
    (left, StateAnswer { place: None, send_configure: initial_configure_sent })
}

/// The output that a window is maximized on: the first one that it is on, or else the first one of
/// the space.
pub open spec fn maximize_output(window_outputs: Seq<OutputView>, space: SpaceView) -> Option<
    OutputView,
> {
    if window_outputs.len() > 0 {
        Some(window_outputs[0])
    } else if space.outputs@.len() > 0 {
        Some(space.outputs@[0])
    } else {
        None
    }
}

/// The area that a window is maximized to.
pub open spec fn maximize_area(window_outputs: Seq<OutputView>, space: SpaceView) -> Option<
    Rectangle,
> {
    match maximize_output(window_outputs, space) {
        Some(output) => free_area(output),
        None => None,
    }
}

/// Answers the request of a client to maximize its toplevel.
///
/// The window fills the free area of its output; decorations take their height from the client.
/// Without a window, an output or a place of the output nothing changes. A configure is sent in any
/// case, now or with the initial configure. `window` is the window of the toplevel,
/// `window_outputs` are the outputs that it is on.
pub fn maximize_request(
    window: Option<&WindowElement>,
    window_outputs: &Vec<OutputView>,
    space: &SpaceView,
    initial_configure_sent: bool,
    state: &mut ToplevelState,
) -> (answer: StateAnswer)
    requires
        match (window, maximize_area(window_outputs@, *space)) {
            (Some(element), Some(area)) => area.size.h >= element.top_offset(),
            _ => true,
        },
    ensures
        match (window, maximize_area(window_outputs@, *space)) {
            (Some(element), Some(area)) => {
                &&& *final(state) == (ToplevelState {
                    maximized: true,
                    size: Some(
                        Size { w: area.size.w, h: (area.size.h - element.top_offset()) as i32 },
                    ),
                    ..*old(state)
                })
                &&& answer == (StateAnswer {
                    place: Some(area.loc),
                    send_configure: initial_configure_sent,
                })
            },
            _ => {
                &&& *final(state) == *old(state)
                &&& answer == (StateAnswer {
                    place: None,
                    send_configure: initial_configure_sent,
                })
            },
        },
{
    // The protocol demands a configure in reply, whether or not the request is fulfilled.
    let unchanged = StateAnswer { place: None, send_configure: initial_configure_sent };
    let window = match window {
        Some(window) => window,
        None => {
            return unchanged;
        },
    };
    let output = if window_outputs.len() > 0 {
        window_outputs[0]
    } else if space.outputs.len() > 0 {
        space.outputs[0]
    } else {
        return unchanged;
    };
    let area = match area_of(&output) {
        Some(area) => area,
        None => {
            return unchanged;
        },
    };
    // Title bar and client together have the height of the area.
    let client_size = if window.decoration_state().is_ssd {
        Size { w: area.size.w, h: area.size.h - HEADER_BAR_HEIGHT }
    } else {
        area.size
    };
    state.maximized = true;
    state.size = Some(client_size);
    StateAnswer { place: Some(area.loc), send_configure: initial_configure_sent }
}

/// Answers the request of a client to unmaximize its toplevel.
pub fn unmaximize_request(initial_configure_sent: bool, state: &mut ToplevelState) -> (answer:
    StateAnswer)
    ensures
        *final(state) == (ToplevelState { maximized: false, size: None, ..*old(state) }),
        answer == (StateAnswer { place: None, send_configure: initial_configure_sent }),
{
    state.maximized = false;
    state.size = None;
    StateAnswer { place: None, send_configure: initial_configure_sent }
}

/// The grab of a device, as far as a popup asks.
#[derive(Debug, Clone, Copy, PartialEq, Eq, Structural)]
pub enum DeviceGrab {
    Free,
    /// Held by a grab with this serial.
    Held(Serial),
    /// Held by a grab with a serial that nobody asks about.
    HeldElsewhere,
}

impl DeviceGrab {
    pub open spec fn has(self, serial: Serial) -> bool {
        self == DeviceGrab::Held(serial)
    }

    fn has_grab(self, serial: Serial) -> (result: bool)
        ensures
            result == self.has(serial),
    {
        match self {
            DeviceGrab::Held(own) => own == serial,
            _ => false,
        }
    }
}

/// A step of a popup grab.
#[derive(Debug, Clone, Copy, PartialEq, Eq, Structural)]
pub enum PopupGrabStep {
    /// Gives up the grab and dismisses its popups.
    UngrabAll,
    /// Gives the keyboard focus to the popup.
    FocusKeyboard,
    GrabKeyboard,
    GrabPointer,
}

/// The device is held by a grab that has neither of the two serials.
pub open spec fn held_by_another(device: Option<DeviceGrab>, serial: Serial, previous: Serial)
    -> bool {
    match device {
        Some(grab) => grab != DeviceGrab::Free && !grab.has(serial) && !grab.has(previous),
        None => false,
    }
}

/// The serial of the popup grab below, or else `own`.
pub open spec fn previous_or(previous_serial: Option<Serial>, own: Serial) -> Serial {
    match previous_serial {
        Some(previous) => previous,
        None => own,
    }
}

/// The steps of a popup grab: keyboard first, then pointer; a device that another grab holds ends
/// the popup grab.
pub open spec fn popup_grab_steps(
    keyboard: Option<DeviceGrab>,
    pointer: Option<DeviceGrab>,
    serial: Serial,
    previous_serial: Option<Serial>,
    grab_serial: Serial,
) -> Seq<PopupGrabStep> {
    if held_by_another(keyboard, serial, previous_or(previous_serial, serial)) {
        seq![PopupGrabStep::UngrabAll]
    } else {
        let first = if keyboard is Some {
            seq![PopupGrabStep::FocusKeyboard, PopupGrabStep::GrabKeyboard]
        } else {
            seq![]
        };
        if held_by_another(pointer, serial, previous_or(previous_serial, grab_serial)) {
            first.push(PopupGrabStep::UngrabAll)
        } else if pointer is Some {
            first.push(PopupGrabStep::GrabPointer)
        } else {
            first
        }
    }
}

/// Answers the request of a popup for an explicit grab.
///
/// `serial` is that of the request, `previous_serial` that of the popup grab below, if there is
/// one, `grab_serial` that of the popup grab itself.
pub fn grab(
    keyboard: Option<DeviceGrab>,
    pointer: Option<DeviceGrab>,
    serial: Serial,
    previous_serial: Option<Serial>,
    grab_serial: Serial,
) -> (steps: Vec<PopupGrabStep>)
    ensures
        steps@ == popup_grab_steps(keyboard, pointer, serial, previous_serial, grab_serial),
{
    let mut steps: Vec<PopupGrabStep> = Vec::new();
    if let Some(grab) = keyboard {
        let previous = match previous_serial {
            Some(previous) => previous,
            None => serial,
        };
        if grab != DeviceGrab::Free && !(grab.has_grab(serial) || grab.has_grab(previous)) {
            steps.push(PopupGrabStep::UngrabAll);
            return steps;
        }
        steps.push(PopupGrabStep::FocusKeyboard);
        steps.push(PopupGrabStep::GrabKeyboard);
    }
    if let Some(grab) = pointer {
        let previous = match previous_serial {
            Some(previous) => previous,
            None => grab_serial,
        };
        if grab != DeviceGrab::Free && !(grab.has_grab(serial) || grab.has_grab(previous)) {
            steps.push(PopupGrabStep::UngrabAll);
            return steps;
        }
        steps.push(PopupGrabStep::GrabPointer);
    }
    assert(steps@ =~= popup_grab_steps(keyboard, pointer, serial, previous_serial, grab_serial));
    steps
}

/// What the keyboard can be focused on.
#[derive(Debug, Clone, Copy, PartialEq, Eq, Structural)]
pub enum KeyboardFocusTarget {
    Window(WindowId),
    LayerSurface(SurfaceId),
}

/// The first layer surface that one of the outputs has for the root of a popup.
pub open spec fn first_layer(layers: Seq<Option<SurfaceId>>) -> Option<SurfaceId>
    decreases layers.len(),
{
    if layers.len() == 0 {
        None
    } else if layers[0] is Some {
        layers[0]
    } else {
        first_layer(layers.skip(1))
    }
}

/// Finds what a popup grab belongs to: the window with the root surface, or else the layer surface.
/// `layers` are the layer surfaces with the root surface, for each output of the space.
pub fn popup_root(root: SurfaceId, space: &SpaceView, layers: &Vec<Option<SurfaceId>>) -> (target:
    Option<KeyboardFocusTarget>)
    ensures
        target == match space.window_of(root) {
            Some(i) => Some(KeyboardFocusTarget::Window(space.windows@[i].id)),
            None => match first_layer(layers@) {
                Some(layer) => Some(KeyboardFocusTarget::LayerSurface(layer)),
                None => None,
            },
        },
{
    if let Some(i) = space.window_for_surface(root) {
        return Some(KeyboardFocusTarget::Window(space.windows[i].id));
    }
    let mut i: usize = 0;
    assert(layers@.skip(0) =~= layers@);
    while i < layers.len()
        invariant
            i <= layers@.len(),
            space.window_of(root) is None,
            first_layer(layers@) == first_layer(layers@.skip(i as int)),
        decreases layers.len() - i,
    {
        if let Some(layer) = layers[i] {
            return Some(KeyboardFocusTarget::LayerSurface(layer));
        }
        assert(layers@.skip(i as int).skip(1) =~= layers@.skip(i + 1));
        i = i + 1;
    }
    None
}

/// The union of all but the last rectangle, in order, with the last one.
pub open spec fn united(last: Rectangle, rest: Seq<Rectangle>) -> Rectangle
    decreases rest.len(),
{
    if rest.len() == 0 {
        last
    } else {
        united(last, rest.drop_last()).merged(rest.last())
    }
}

/// Computes the area that a popup is kept in, relative to its parent's geometry.
///
/// `outputs` are the geometries of the outputs that the window is on, `popup_coords` is where the
/// popup's parent is relative to the window, `window_geo` the geometry of the window.
pub fn unconstrain_popup(outputs: &Vec<Rectangle>, popup_coords: Point, window_geo: Rectangle)
    -> (target: Option<Rectangle>)
    ensures
        target == if outputs@.len() == 0 {
            None
        } else {
            let area = united(outputs@.last(), outputs@.drop_last());
            Some(
                Rectangle {
                    loc: area.loc.seen_from(popup_coords).seen_from(window_geo.loc),
                    size: area.size,
                },
            )
        },
{
    if outputs.len() == 0 {
        return None;
    }
    let count: usize = outputs.len() - 1;
    let ghost rest = outputs@.drop_last();
    let mut area = outputs[count];
    let mut i: usize = 0;
    assert(rest.take(0) =~= Seq::<Rectangle>::empty());
    while i < count
        invariant
            i <= count,
            count + 1 == outputs@.len(),
            rest == outputs@.drop_last(),
            area == united(outputs@.last(), rest.take(i as int)),
        decreases count - i,
    {
        assert(rest.take(i + 1).drop_last() =~= rest.take(i as int));
        area = area.merge(outputs[i]);
        i = i + 1;
    }
    assert(rest.take(count as int) =~= rest);
    let mut target = area;
    target.loc = target.loc.minus(popup_coords);
    target.loc = target.loc.minus(window_geo.loc);
    Some(target)
}

/// The place of a window whose client has the given size now, after a resize that began as given:
/// a dragged left or top edge moves the window.
pub open spec fn resized_location(data: ResizeData, location: Point, size: Size) -> (int, int) {
    (
        if data.edges.drags_left() {
            data.initial_window_location.x + (data.initial_window_size.w - size.w)
        } else {
            location.x as int
        },
        if data.edges.drags_top() {
            data.initial_window_location.y + (data.initial_window_size.h - size.h)
        } else {
            location.y as int
        },
    )
}

/// The edges can be followed within the grid.
pub open spec fn can_follow(data: ResizeData, size: Size) -> bool {
    &&& data.edges.drags_left() ==> in_i32(data.initial_window_size.w - size.w) && in_i32(
        data.initial_window_location.x + (data.initial_window_size.w - size.w),
    )
    &&& data.edges.drags_top() ==> in_i32(data.initial_window_size.h - size.h) && in_i32(
        data.initial_window_location.y + (data.initial_window_size.h - size.h),
    )
}

/// A window and its new place.
#[derive(Debug, Clone, Copy, PartialEq, Eq, Structural)]
pub struct Relocation {
    pub window: WindowId,
    pub place: Point,
}

/// The resize that a surface is in, if any.
pub open spec fn running_resize(data: Option<SurfaceData>) -> Option<ResizeData> {
    match data {
        Some(kept) => match kept.resize_state {
            ResizeState::Resizing(resize) => Some(resize),
            _ => None,
        },
        None => None,
    }
}

/// Where a commit moves the window that shows a surface: with its dragged left or top edge, if it
/// is being resized by one.
pub open spec fn relocation(space: SpaceView, surface: SurfaceId, data: Option<SurfaceData>)
    -> Option<Relocation> {
    match (space.window_of(surface), running_resize(data)) {
        (Some(i), Some(resize)) => {
            let window = space.windows@[i];
            let (x, y) = resized_location(resize, window.location, window.geometry.size);
            if resize.edges.drags_left() || resize.edges.drags_top() {
                Some(Relocation { window: window.id, place: Point { x: x as i32, y: y as i32 } })
            } else {
                None
            }
        },
        _ => None,
    }
}

/// Handles a commit of a toplevel: while its left or top edge is dragged, the window moves with
/// it. `data` is what is kept of the surface.
pub fn handle_toplevel_commit(space: &SpaceView, surface: SurfaceId, data: Option<SurfaceData>)
    -> (moved: Option<Relocation>)
    requires
        match (space.window_of(surface), running_resize(data)) {
            (Some(i), Some(resize)) => can_follow(resize, space.windows@[i].geometry.size),
            _ => true,
        },
    ensures
        moved == relocation(*space, surface, data),
{
    let window = match space.window_for_surface(surface) {
        Some(i) => &space.windows[i],
        None => {
            return None;
        },
    };
    let resize = match data {
        Some(kept) => match kept.resize_state {
            ResizeState::Resizing(resize) => resize,
            _ => {
                return None;
            },
        },
        None => {
            return None;
        },
    };
    let loc = resize.initial_window_location;
    let size = resize.initial_window_size;
    let mut place = window.location;
    if resize.edges.includes_left() {
        place.x = loc.x + (size.w - window.geometry.size.w);
    }
    if resize.edges.includes_top() {
        place.y = loc.y + (size.h - window.geometry.size.h);
    }
    if resize.edges.includes_left() || resize.edges.includes_top() {
        Some(Relocation { window: window.id, place })
    } else {
        None
    }
}

/// The far ends of some rectangles can be written, and so can their extent together.
pub open spec fn can_be_united(all: Seq<Rectangle>) -> bool {
    &&& forall|i: int| 0 <= i < all.len() ==> is_ordinary(#[trigger] all[i])
    &&& forall|i: int, j: int|
        #![trigger all[i], all[j]]
        0 <= i < all.len() && 0 <= j < all.len() ==> {
            &&& in_i32(all[i].right() - all[j].loc.x)
            &&& in_i32(all[i].bottom() - all[j].loc.y)
        }
}

/// The rectangle has a size that is not negative, and a far corner.
pub open spec fn is_ordinary(rectangle: Rectangle) -> bool {
    &&& rectangle.size.w >= 0
    &&& rectangle.size.h >= 0
    &&& rectangle.has_far_corner()
}

/// Each end of a union is an end of one of the rectangles.
pub open spec fn ends_are_shared(whole: Rectangle, all: Seq<Rectangle>) -> bool {
    &&& exists|i: int| 0 <= i < all.len() && (#[trigger] all[i]).loc.x == whole.loc.x
    &&& exists|i: int| 0 <= i < all.len() && (#[trigger] all[i]).loc.y == whole.loc.y
    &&& exists|i: int| 0 <= i < all.len() && (#[trigger] all[i]).right() == whole.right()
    &&& exists|i: int| 0 <= i < all.len() && (#[trigger] all[i]).bottom() == whole.bottom()
}

/// Each rectangle of a list without the second to last one is in the whole list at the same place or
/// one later.
proof fn fewer_can_be_united(last: Rectangle, rest: Seq<Rectangle>)
    requires
        rest.len() > 0,
        can_be_united(rest.push(last)),
    ensures
        can_be_united(rest.drop_last().push(last)),
        forall|i: int|
            0 <= i < rest.len() ==> #[trigger] rest.drop_last().push(last)[i] == rest.push(
                last,
            )[place_among(rest, i)],
{
    let all = rest.push(last);
    let fewer = rest.drop_last().push(last);
    assert forall|i: int| 0 <= i < fewer.len() implies #[trigger] fewer[i] == all[place_among(
        rest,
        i,
    )] by {}
    assert forall|i: int, j: int|
        #![trigger fewer[i], fewer[j]]
        0 <= i < fewer.len() && 0 <= j < fewer.len() implies {
        &&& in_i32(fewer[i].right() - fewer[j].loc.x)
        &&& in_i32(fewer[i].bottom() - fewer[j].loc.y)
    } by {
        let k = place_among(rest, i);
        let l = place_among(rest, j);
        assert(all[k] == fewer[i] && all[l] == fewer[j]);
    }
}

/// Where the rectangle at place `i` without the second to last one stands with it.
spec fn place_among(rest: Seq<Rectangle>, i: int) -> int {
    if i < rest.len() - 1 {
        i
    } else {
        rest.len() as int
    }
}

/// A popup is kept on the outputs together: the area that it is kept in has every output of its
/// window inside, and reaches no further than they do.
pub proof fn popup_areas_hold_all_outputs(last: Rectangle, rest: Seq<Rectangle>)
    requires
        can_be_united(rest.push(last)),
    ensures
        is_ordinary(united(last, rest)),
        ends_are_shared(united(last, rest), rest.push(last)),
        forall|i: int|
            0 <= i <= rest.len() ==> united(last, rest).encloses(#[trigger] rest.push(last)[i]),
    decreases rest.len(),
{
    let all = rest.push(last);
    if rest.len() == 0 {
        assert(all[0] == last);
    } else {
        let fewer = rest.drop_last().push(last);
        let newest = rest.last();
        let before = united(last, rest.drop_last());
        fewer_can_be_united(last, rest);
        popup_areas_hold_all_outputs(last, rest.drop_last());
        let count = rest.len() as int;
        assert(all[count - 1] == newest);
        assert(all[count] == last);
        let (l, t, r, b) = shared_ends(before, fewer);
        let kl = place_among(rest, l);
        let kt = place_among(rest, t);
        let kr = place_among(rest, r);
        let kb = place_among(rest, b);
        assert(in_i32(all[kr].right() - all[count - 1].loc.x));
        assert(in_i32(all[count - 1].right() - all[kl].loc.x));
        assert(in_i32(all[kr].right() - all[kl].loc.x));
        assert(in_i32(all[count - 1].right() - all[count - 1].loc.x));
        assert(in_i32(all[kb].bottom() - all[count - 1].loc.y));
        assert(in_i32(all[count - 1].bottom() - all[kt].loc.y));
        assert(in_i32(all[kb].bottom() - all[kt].loc.y));
        assert(in_i32(all[count - 1].bottom() - all[count - 1].loc.y));
        assert(before.mergeable(newest));
        let whole = before.merged(newest);
        assert(whole == united(last, rest));
        assert(whole.encloses(before) && whole.encloses(newest));
        assert(whole.loc.x == all[kl].loc.x || whole.loc.x == all[count - 1].loc.x);
        assert(whole.loc.y == all[kt].loc.y || whole.loc.y == all[count - 1].loc.y);
        assert(whole.right() == all[kr].right() || whole.right() == all[count - 1].right());
        assert(whole.bottom() == all[kb].bottom() || whole.bottom() == all[count - 1].bottom());
        assert forall|i: int| 0 <= i <= rest.len() implies whole.encloses(#[trigger] all[i]) by {
            if i < count - 1 {
                assert(fewer[i] == all[i]);
                assert(before.encloses(fewer[i]));
            } else if i == count {
                assert(fewer[count - 1] == last);
                assert(before.encloses(fewer[count - 1]));
            }
        }
    }
}

proof fn shared_ends(whole: Rectangle, all: Seq<Rectangle>) -> (ends: (int, int, int, int))
    requires
        ends_are_shared(whole, all),
    ensures
        0 <= ends.0 < all.len() && all[ends.0].loc.x == whole.loc.x,
        0 <= ends.1 < all.len() && all[ends.1].loc.y == whole.loc.y,
        0 <= ends.2 < all.len() && all[ends.2].right() == whole.right(),
        0 <= ends.3 < all.len() && all[ends.3].bottom() == whole.bottom(),
{
    let l = choose|i: int| 0 <= i < all.len() && (#[trigger] all[i]).loc.x == whole.loc.x;
    let t = choose|i: int| 0 <= i < all.len() && (#[trigger] all[i]).loc.y == whole.loc.y;
    let r = choose|i: int| 0 <= i < all.len() && (#[trigger] all[i]).right() == whole.right();
    let b = choose|i: int| 0 <= i < all.len() && (#[trigger] all[i]).bottom() == whole.bottom();
    (l, t, r, b)
}

/// While a left or top edge is dragged, the opposite edge stays where it was when the resize began.
pub proof fn opposite_edges_stay(data: ResizeData, location: Point, size: Size)
    ensures
        ({
            let (x, y) = resized_location(data, location, size);
            &&& data.edges.drags_left() ==> x + size.w == data.initial_window_location.x
                + data.initial_window_size.w
            &&& data.edges.drags_top() ==> y + size.h == data.initial_window_location.y
                + data.initial_window_size.h
            &&& !data.edges.drags_left() ==> x == location.x
            &&& !data.edges.drags_top() ==> y == location.y
        }),
{
}

/// A window that keeps its size while it is resized stays where the resize began.
pub proof fn unchanged_sizes_do_not_move(data: ResizeData)
    ensures
        resized_location(data, data.initial_window_location, data.initial_window_size) == (
            data.initial_window_location.x as int,
            data.initial_window_location.y as int,
        ),
{
}

/// Acknowledgments move a resize forward or not at all, and never touch a running one.
pub proof fn acks_only_finish_resizes(state: ResizeState, serial: Serial, was_resizing: bool)
    ensures
        acked_resize_state(state, serial, was_resizing) == state || {
            &&& state matches ResizeState::WaitingForFinalAck(data, awaited)
            &&& was_resizing
            &&& serial.no_older_than(awaited)
            &&& acked_resize_state(state, serial, was_resizing) == ResizeState::WaitingForCommit(
                data,
            )
        },
        state is Resizing ==> acked_resize_state(state, serial, was_resizing) == state,
{
}

/// Fullscreen windows are never decorated, whatever their client asked for.
pub proof fn fullscreen_windows_are_bare(state: ToplevelState)
    requires
        state.fullscreen,
    ensures
        !is_decorated(state),
{
}

/// A request that began on another client's surface starts nothing.
pub proof fn strangers_start_nothing(
    grabs: SeatGrabs,
    window: Option<WindowPlace>,
    edges: ResizeEdge,
    locations: DeviceLocations,
    maximized: bool,
)
    requires
        grabs.asked_about() matches Some((device, start)) ==> !start.on_requester,
    ensures
        client_resize(grabs, window, edges) is None,
        client_move(grabs, window, locations, maximized) is None,
{
}

/// A popup grab that gives up takes nothing afterwards, and one that does not give up never takes a
/// device that another grab holds.
pub proof fn popup_grabs_respect_others(
    keyboard: Option<DeviceGrab>,
    pointer: Option<DeviceGrab>,
    serial: Serial,
    previous_serial: Option<Serial>,
    grab_serial: Serial,
)
    ensures
        ({
            let steps = popup_grab_steps(keyboard, pointer, serial, previous_serial, grab_serial);
            &&& forall|i: int|
                0 <= i < steps.len() - 1 ==> #[trigger] steps[i] != PopupGrabStep::UngrabAll
            &&& held_by_another(keyboard, serial, previous_or(previous_serial, serial)) ==> !steps.contains(
                PopupGrabStep::GrabKeyboard,
            )
            &&& held_by_another(pointer, serial, previous_or(previous_serial, grab_serial)) ==> !steps.contains(
                PopupGrabStep::GrabPointer,
            )
        }),
{
}

/// A resize starts with the edges that were asked for and with the place and size that the window has,
/// in what is kept of the surface as well as in the grab.
pub proof fn resizes_start_as_asked(
    device: Device,
    edges: ResizeEdge,
    location: Point,
    size: Size,
    ssd_height_offset: i32,
)
    ensures
        ({
            let grab = resize_from(device, edges, location, size, ssd_height_offset);
            &&& grab.device == device
            &&& grab.edges == edges
            &&& grab.initial_window_location == location
            &&& grab.initial_window_size == size
            &&& grab.last_window_size == size
            &&& grab.ssd_height_offset == ssd_height_offset
            &&& resizing_data(grab).resize_state matches ResizeState::Resizing(data) && {
                &&& data.edges == edges
                &&& data.initial_window_location == location
                &&& data.initial_window_size == size
            }
        }),
{
}

/// A resize that a client asks for drags the edges that it asked for, and keeps them for the time of
/// the resize; it starts where the window is, and leaves the heights that the client is told alone.
pub proof fn client_resizes_keep_their_edges(
    grabs: SeatGrabs,
    window: Option<WindowPlace>,
    edges: ResizeEdge,
)
    ensures
        client_resize(grabs, window, edges) matches Some(grab) ==> {
            &&& grab.edges == edges
            &&& grab.initial_window_size == window->0.size
            &&& grab.last_window_size == window->0.size
            &&& window->0.location matches Some(location) ==> grab.initial_window_location
                == location
            &&& grab.ssd_height_offset == 0
            &&& grab.device == if grabs.touch is Some {
                Device::Touch
            } else {
                Device::Pointer
            }
            &&& resizing_data(grab).resize_state matches ResizeState::Resizing(data) && {
                &&& data.edges == edges
                &&& data.initial_window_location == grab.initial_window_location
                &&& data.initial_window_size == window->0.size
            }
        },
{
}

/// A client may start a resize or a move of a window with the touch that the request is about, if
/// that began on one of its surfaces; without such a touch, with the pointer in the same way.
pub proof fn requests_need_a_grab_of_their_own(
    grabs: SeatGrabs,
    window: Option<WindowPlace>,
    edges: ResizeEdge,
    locations: DeviceLocations,
    maximized: bool,
)
    ensures
        ({
            let allowed = match grabs.touch {
                Some(start) => start.on_requester,
                None => grabs.has_pointer && grabs.pointer is Some && grabs.pointer->0.on_requester,
            };
            &&& client_resize(grabs, window, edges) is Some <==> allowed && window is Some
            &&& client_move(grabs, window, locations, maximized) is Some <==> allowed && window is Some
                && window->0.location is Some
        }),
{
}

/// A move starts where the window is. A maximized window is told, and starts at the touch, or at the
/// pixel of the pointer, whichever moves it.
pub proof fn moves_start_at_the_window_or_the_device(
    grabs: SeatGrabs,
    window: Option<WindowPlace>,
    locations: DeviceLocations,
    x: i64,
    y: i64,
    maximized: bool,
)
    requires
        locations.pointer == (Position { x: Coord::Whole(x), y: Coord::Whole(y) }),
        i32::MIN <= x <= i32::MAX,
        i32::MIN <= y <= i32::MAX,
    ensures
        client_move(grabs, window, locations, maximized) matches Some(grab) ==> {
            &&& grab.device == if grabs.touch is Some {
                Device::Touch
            } else {
                Device::Pointer
            }
            &&& grab.send_configure == maximized
            &&& !maximized ==> Some(grab.initial_window_location) == window->0.location
            &&& maximized && grabs.touch is Some ==> grab.initial_window_location == locations.touch
            &&& maximized && grabs.touch is None ==> grab.initial_window_location.x == x
                && grab.initial_window_location.y == y
        },
{
}

/// The end of a resize is acknowledged if and only if it is awaited, the surface was resizing, and the
/// configure is no older than the awaited one. What began the resize is kept.
pub proof fn final_acks_are_awaited(state: ResizeState, serial: Serial, was_resizing: bool)
    ensures
        match state {
            ResizeState::WaitingForFinalAck(data, awaited) => {
                &&& was_resizing && serial.no_older_than(awaited) ==> acked_resize_state(
                    state,
                    serial,
                    was_resizing,
                ) == ResizeState::WaitingForCommit(data)
                &&& !was_resizing || !serial.no_older_than(awaited) ==> acked_resize_state(
                    state,
                    serial,
                    was_resizing,
                ) == state
            },
            _ => acked_resize_state(state, serial, was_resizing) == state,
        },
{
}

/// A toplevel is decorated unless it is fullscreen or its client draws its own decorations; its size
/// and its other states do not matter.
pub proof fn toplevels_are_decorated_by_default(state: ToplevelState)
    ensures
        state.fullscreen ==> !is_decorated(state),
        state.decoration_mode == Some(DecorationMode::ClientSide) ==> !is_decorated(state),
        !state.fullscreen && state.decoration_mode == Some(DecorationMode::ServerSide)
            ==> is_decorated(state),
        !state.fullscreen && state.decoration_mode is None ==> is_decorated(state),
{
}

/// The free area of an output is its zone, moved by the place of the output.
pub proof fn free_areas_are_zones_on_the_space(output: OutputView)
    ensures
        output.geometry is None <==> free_area(output) is None,
        match (output.geometry, free_area(output)) {
            (Some(geometry), Some(area)) => {
                &&& area.size == output.zone.size
                &&& i32::MIN <= geometry.loc.x + output.zone.loc.x <= i32::MAX ==> area.loc.x
                    == geometry.loc.x + output.zone.loc.x
                &&& i32::MIN <= geometry.loc.y + output.zone.loc.y <= i32::MAX ==> area.loc.y
                    == geometry.loc.y + output.zone.loc.y
            },
            _ => true,
        },
{
}

/// A new window goes to the workspace of its client, if that has a space; only on a workspace other
/// than the desktop it fills an area at once, and that is the zone of the first output there.
pub proof fn new_windows_follow_their_client(workspaces: Workspaces, id: WorkspaceId, e: int)
    requires
        0 <= e < workspaces.entries@.len(),
        workspaces.entries@[e].id == id,
        forall|j: int| 0 <= j < e ==> (#[trigger] workspaces.entries@[j]).id != id,
    ensures
        routed_to(Some(id), workspaces) == Some(id),
        routed_to(None, workspaces) is None,
        filled_area(None, workspaces) is None,
        id == 0 ==> filled_area(Some(id), workspaces) is None,
        ({
            let outputs = workspaces.entries@[e].space.outputs@;
            &&& filled_area(Some(id), workspaces) is Some <==> id != 0 && outputs.len() > 0
                && outputs[0].geometry is Some
            &&& filled_area(Some(id), workspaces) matches Some(area) ==> {
                let loc = outputs[0].geometry->0.loc;
                &&& area.size == outputs[0].zone.size
                &&& i32::MIN <= loc.x + outputs[0].zone.loc.x <= i32::MAX ==> area.loc.x == loc.x
                    + outputs[0].zone.loc.x
                &&& i32::MIN <= loc.y + outputs[0].zone.loc.y <= i32::MAX ==> area.loc.y == loc.y
                    + outputs[0].zone.loc.y
            }
        }),
{
    crate::workspace::spaces_are_found_by_id(workspaces, id);
}

/// A new window of a client whose workspace is not listed goes to the desktop, but fills the first
/// output of the desktop as it would have filled that of its workspace.
pub proof fn lost_windows_go_to_the_desktop(workspaces: Workspaces, id: WorkspaceId)
    requires
        forall|j: int|
            0 <= j < workspaces.entries@.len() ==> (#[trigger] workspaces.entries@[j]).id != id,
    ensures
        routed_to(Some(id), workspaces) is None,
        filled_area(Some(id), workspaces) is Some <==> id != 0 && workspaces.desktop.outputs@.len()
            > 0 && workspaces.desktop.outputs@[0].geometry is Some,
{
    crate::workspace::spaces_are_found_by_id(workspaces, id);
}

/// A fullscreen configure names the output that the client bound last, and what the client named only
/// if it bound none.
pub proof fn the_last_bound_output_is_named(
    named: Option<WlOutputId>,
    earlier: Seq<WlOutputId>,
    last: WlOutputId,
)
    ensures
        bound_output(named, earlier.push(last)) == Some(last),
        bound_output(named, Seq::<WlOutputId>::empty()) == named,
{
}

/// A window is maximized to the zone of the first output that it is on. If it is on none, the first
/// output of the space takes its place.
pub proof fn windows_are_maximized_where_they_are(
    window_outputs: Seq<OutputView>,
    space: SpaceView,
    output: OutputView,
)
    requires
        output == if window_outputs.len() > 0 {
            window_outputs[0]
        } else {
            space.outputs@[0]
        },
    ensures
        maximize_area(window_outputs, space) is Some <==> (window_outputs.len() > 0
            || space.outputs@.len() > 0) && output.geometry is Some,
        maximize_area(window_outputs, space) matches Some(area) ==> {
            let loc = output.geometry->0.loc;
            &&& area.size == output.zone.size
            &&& i32::MIN <= loc.x + output.zone.loc.x <= i32::MAX ==> area.loc.x == loc.x
                + output.zone.loc.x
            &&& i32::MIN <= loc.y + output.zone.loc.y <= i32::MAX ==> area.loc.y == loc.y
                + output.zone.loc.y
        },
{
}

/// A popup may take a device that nobody holds, that is held with the serial of its request, or that is
/// held with the serial of the popup grab below.
pub open spec fn may_take(device: DeviceGrab, serial: Serial, below: Serial) -> bool {
    match device {
        DeviceGrab::Free => true,
        DeviceGrab::Held(own) => own == serial || own == below,
        DeviceGrab::HeldElsewhere => false,
    }
}

/// A popup grab takes the keyboard, with the focus, and then the pointer, as far as the seat has them.
/// At the first of them that it may not take, it gives up instead.
pub proof fn popup_grabs_take_what_they_may(
    keyboard: Option<DeviceGrab>,
    pointer: Option<DeviceGrab>,
    serial: Serial,
    previous_serial: Option<Serial>,
    grab_serial: Serial,
)
    ensures
        ({
            let steps = popup_grab_steps(keyboard, pointer, serial, previous_serial, grab_serial);
            let keyboard_below = match previous_serial {
                Some(previous) => previous,
                None => serial,
            };
            let pointer_below = match previous_serial {
                Some(previous) => previous,
                None => grab_serial,
            };
            let refused = keyboard is Some && !may_take(keyboard->0, serial, keyboard_below);
            let lost = pointer is Some && !may_take(pointer->0, serial, pointer_below);
            &&& refused ==> steps == seq![PopupGrabStep::UngrabAll]
            &&& !refused && keyboard is Some ==> steps.len() >= 2 && steps[0]
                == PopupGrabStep::FocusKeyboard && steps[1] == PopupGrabStep::GrabKeyboard
            &&& !refused && pointer is Some ==> steps.len() > 0 && steps.last() == if lost {
                PopupGrabStep::UngrabAll
            } else {
                PopupGrabStep::GrabPointer
            }
            &&& !refused ==> steps.len() == (if keyboard is Some {
                2int
            } else {
                0
            }) + (if pointer is Some {
                1int
            } else {
                0
            })
        }),
{
}

/// The layer surface of a popup is the first one that an output has for it.
pub proof fn layers_are_found_in_order(layers: Seq<Option<SurfaceId>>)
    ensures
        match first_layer(layers) {
            Some(layer) => exists|i: int|
                #![trigger layers[i]]
                0 <= i < layers.len() && layers[i] == Some(layer) && forall|j: int|
                    0 <= j < i ==> #[trigger] layers[j] is None,
            None => forall|j: int| 0 <= j < layers.len() ==> #[trigger] layers[j] is None,
        },
    decreases layers.len(),
{
    if layers.len() > 0 && layers[0] is None {
        let rest = layers.skip(1);
        layers_are_found_in_order(rest);
        assert forall|j: int| 1 <= j < layers.len() implies #[trigger] layers[j] == rest[j - 1] by {}
        if let Some(layer) = first_layer(rest) {
            let i = choose|i: int|
                #![trigger rest[i]]
                0 <= i < rest.len() && rest[i] == Some(layer) && forall|j: int|
                    0 <= j < i ==> #[trigger] rest[j] is None;
            assert(layers[i + 1] == Some(layer));
        }
    }
}

/// A commit moves a window if and only if the surface is the window's and is being resized by a left or
/// top edge. The window moves so far that its right or bottom edge is where it was when the resize
/// began, and not at all in the other direction.
pub proof fn commits_keep_the_opposite_edge(
    space: SpaceView,
    surface: SurfaceId,
    resize: ResizeData,
    i: int,
)
    requires
        0 <= i < space.windows@.len(),
        space.windows@[i].surface == Some(surface),
        forall|j: int| 0 <= j < i ==> (#[trigger] space.windows@[j]).surface != Some(surface),
        can_follow(resize, space.windows@[i].geometry.size),
    ensures
        ({
            let window = space.windows@[i];
            let size = window.geometry.size;
            let left = resize.edges is Left || resize.edges is TopLeft || resize.edges is BottomLeft;
            let top = resize.edges is Top || resize.edges is TopLeft || resize.edges is TopRight;
            let data = Some(SurfaceData { resize_state: ResizeState::Resizing(resize) });
            &&& relocation(space, surface, data) is Some <==> left || top
            &&& relocation(space, surface, data) matches Some(moved) ==> {
                &&& moved.window == window.id
                &&& left ==> moved.place.x + size.w == resize.initial_window_location.x
                    + resize.initial_window_size.w
                &&& !left ==> moved.place.x == window.location.x
                &&& top ==> moved.place.y + size.h == resize.initial_window_location.y
                    + resize.initial_window_size.h
                &&& !top ==> moved.place.y == window.location.y
            }
        }),
{
    crate::workspace::windows_are_found_by_surface(space, surface);
}

/// Commits of surfaces that are not being resized, or that no window shows, move nothing.
pub proof fn other_commits_move_nothing(
    space: SpaceView,
    surface: SurfaceId,
    data: Option<SurfaceData>,
)
    requires
        (data matches Some(kept) ==> kept.resize_state !is Resizing) || forall|j: int|
            0 <= j < space.windows@.len() ==> (#[trigger] space.windows@[j]).surface != Some(surface),
    ensures
        relocation(space, surface, data) is None,
{
    crate::workspace::windows_are_found_by_surface(space, surface);
}

} // verus!
