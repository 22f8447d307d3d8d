//! Windows with their decorations: hit-testing, input on decorations, drawing order.

use vstd::prelude::*;

use super::grabs::ResizeEdge;
use super::ssd::input::{
    edge_of_zone, hit_test, resize_edge_for_zone, zone_at, DecorationHitZone, EDGE_WIDTH,
};
use super::ssd::render::{allocatable, HoverState};
use super::ssd::theme::DecorationTheme;
use super::ssd::{
    HeaderBar, HeaderConfig, SolidColorBuffer, WindowState, HEADER_BAR_HEIGHT,
};
use super::{Request, SsdAction, WindowSurface};
use crate::utils::{
    cast_u32, in_i32, wrapped_i32, wrapped_u32, Point, Position, Rectangle, Serial, Size,
};
use crate::{SeatId, SurfaceId, X11WindowId};

verus! {

/// The left mouse button, as Linux numbers it.
pub const BTN_LEFT: u32 = 0x110;

/// The cursor image that is shown.
#[derive(Debug)]
pub enum CursorImageStatus {
    Hidden,
    /// A cursor of the theme.
    Named(String),
    /// An image of a client.
    Surface(SurfaceId),
}

/// What a cursor image status stands for.
pub enum CursorView {
    Hidden,
    Named(Seq<char>),
    Surface(SurfaceId),
}

impl View for CursorImageStatus {
    type V = CursorView;

    open spec fn view(&self) -> CursorView {
        match *self {
            CursorImageStatus::Hidden => CursorView::Hidden,
            CursorImageStatus::Named(name) => CursorView::Named(name@),
            CursorImageStatus::Surface(surface) => CursorView::Surface(surface),
        }
    }
}

impl CursorImageStatus {
    /// The default cursor of the theme.
    pub fn default_named() -> (status: CursorImageStatus)
        ensures
            status@ == CursorView::Named("default"@),
    {
        CursorImageStatus::Named("default".to_owned())
    }
}

/// The theme's name for the cursor of a resize edge.
pub open spec fn resize_cursor(edge: ResizeEdge) -> Seq<char> {
    match edge {
        ResizeEdge::Top => "n-resize"@,
        ResizeEdge::Bottom => "s-resize"@,
        ResizeEdge::Left => "w-resize"@,
        ResizeEdge::Right => "e-resize"@,
        ResizeEdge::TopLeft => "nw-resize"@,
        ResizeEdge::TopRight => "ne-resize"@,
        ResizeEdge::BottomLeft => "sw-resize"@,
        ResizeEdge::BottomRight => "se-resize"@,
        ResizeEdge::NoEdge => "default"@,
    }
}

/// Maps a resize edge to the appropriate named cursor.
pub fn cursor_for_resize_edge(edge: ResizeEdge) -> (status: CursorImageStatus)
    ensures
        status@ == CursorView::Named(resize_cursor(edge)),
{
    let name = match edge {
        ResizeEdge::Top => "n-resize",
        ResizeEdge::Bottom => "s-resize",
        ResizeEdge::Left => "w-resize",
        ResizeEdge::Right => "e-resize",
        ResizeEdge::TopLeft => "nw-resize",
        ResizeEdge::TopRight => "ne-resize",
        ResizeEdge::BottomLeft => "sw-resize",
        ResizeEdge::BottomRight => "se-resize",
        ResizeEdge::NoEdge => {
            return CursorImageStatus::default_named();
        },
    };
    CursorImageStatus::Named(name.to_owned())
}

/// Each edge has a cursor of its own.
pub proof fn resize_cursors_tell_edges_apart(a: ResizeEdge, b: ResizeEdge)
    requires
        resize_cursor(a) == resize_cursor(b),
    ensures
        a == b,
{
    reveal_strlit("n-resize");
    reveal_strlit("s-resize");
    reveal_strlit("w-resize");
    reveal_strlit("e-resize");
    reveal_strlit("nw-resize");
    reveal_strlit("ne-resize");
    reveal_strlit("sw-resize");
    reveal_strlit("se-resize");
    reveal_strlit("default");
    let name = resize_cursor(a);
    assert(name.len() == resize_cursor(b).len());
    assert(name[0] == resize_cursor(b)[0]);
    assert(name[1] == resize_cursor(b)[1]);
}

/// The zone of a point of a decorated window around a client of the given size.
pub open spec fn window_zone(loc: Position, client: Size, button_width: int) -> DecorationHitZone {
    zone_at(loc.x, loc.y, client.w as int, HEADER_BAR_HEIGHT + client.h, button_width)
}

/// Computes the zone of a decorated window that a point is in.
pub fn ssd_hit_zone(loc: Position, inner_geo: Rectangle, button_width: u32) -> (zone:
    DecorationHitZone)
    requires
        in_i32(HEADER_BAR_HEIGHT + inner_geo.size.h),
    ensures
        zone == window_zone(loc, inner_geo.size, button_width as int),
{
    hit_test(
        loc.x,
        loc.y,
        inner_geo.size.w,
        HEADER_BAR_HEIGHT + inner_geo.size.h,
        button_width,
    )
}

/// The cursor over a zone of the decorations.
pub open spec fn zone_cursor(zone: DecorationHitZone) -> Seq<char> {
    match edge_of_zone(zone) {
        Some(edge) => resize_cursor(edge),
        None => "default"@,
    }
}

/// What a press of the left button on a zone of the decorations asks for.
pub open spec fn zone_action(zone: DecorationHitZone) -> SsdAction {
    match edge_of_zone(zone) {
        Some(edge) => SsdAction::Resize(edge),
        None => match zone {
            DecorationHitZone::CloseButton => SsdAction::Close,
            DecorationHitZone::MaximizeButton => SsdAction::Maximize,
            _ => SsdAction::Move,
        },
    }
}

/// What the pointer can be over.
#[derive(Debug, Clone, Copy, PartialEq, Eq, Structural)]
pub enum PointerFocusTarget {
    WlSurface(SurfaceId),
    X11Surface(X11WindowId),
    /// The decorations of a window.
    SSD(WindowSurface),
}

/// A window: what it shows, and its decorations.
pub struct WindowElement {
    pub surface: WindowSurface,
    /// The surface of the window, once it has one.
    pub wl_surface: Option<SurfaceId>,
    pub decorations: WindowState,
}

impl WindowElement {
    /// How far the client surface is below the top of the window.
    pub open spec fn top_offset(self) -> int {
        if self.decorations.is_ssd {
            HEADER_BAR_HEIGHT as int
        } else {
            0
        }
    }

    /// A window without decorations, with the header bar of a theme at hand.
    pub fn new(surface: WindowSurface, wl_surface: Option<SurfaceId>, theme: &DecorationTheme)
        -> (window: WindowElement)
        requires
            HeaderConfig::readable(*theme),
        ensures
            window.surface == surface,
            window.wl_surface == wl_surface,
            !window.decorations.is_ssd,
            window.decorations.header_bar.is_fresh(*theme),
    {
        WindowElement {
            surface,
            wl_surface,
            decorations: WindowState { is_ssd: false, header_bar: HeaderBar::new(theme) },
        }
    }

    pub fn decoration_state(&self) -> (state: &WindowState)
        ensures
            *state == self.decorations,
    {
        &self.decorations
    }

    pub fn set_ssd(&mut self, ssd: bool)
        ensures
            *final(self) == (WindowElement {
                decorations: WindowState { is_ssd: ssd, ..old(self).decorations },
                ..*old(self)
            }),
    {
        self.decorations.is_ssd = ssd;
    }

    pub fn is_x11(&self) -> (result: bool)
        ensures
            result == self.surface is X11,
    {
        match self.surface {
            WindowSurface::X11(_) => true,
            WindowSurface::Wayland(_) => false,
        }
    }

    pub fn is_wayland(&self) -> (result: bool)
        ensures
            result == self.surface is Wayland,
    {
        match self.surface {
            WindowSurface::X11(_) => false,
            WindowSurface::Wayland(_) => true,
        }
    }

    pub fn wl_surface(&self) -> (surface: Option<SurfaceId>)
        ensures
            surface == self.wl_surface,
    {
        self.wl_surface
    }

    /// A point of the window as its client sees it: without the title bar.
    pub fn client_location(&self, location: Position) -> (inner: Position)
        ensures
            inner.x == location.x,
            inner.y == location.y.seen_from(self.top_offset()),
    {
        let offset: i32 = if self.decorations.is_ssd {
            HEADER_BAR_HEIGHT
        } else {
            0
        };
        Position { x: location.x, y: location.y.minus(offset) }
    }

    /// What is under a point of the window, given what of the client and its popups is there.
    /// Client surfaces come before the decorations: popups extend beyond the window.
    pub open spec fn target_under(
        self,
        location: Position,
        client_hit: Option<(SurfaceId, Point)>,
        client: Size,
    ) -> Option<(PointerFocusTarget, Point)> {
        match client_hit {
            Some(hit) => Some(
                (
                    match self.surface {
                        WindowSurface::Wayland(_) => PointerFocusTarget::WlSurface(hit.0),
                        WindowSurface::X11(window) => PointerFocusTarget::X11Surface(window),
                    },
                    hit.1.moved(Point { x: 0, y: self.top_offset() as i32 }),
                ),
            ),
            None => {
                let zone = window_zone(
                    location,
                    client,
                    self.decorations.header_bar.button(),
                );
                if self.decorations.is_ssd && (location.y.before(HEADER_BAR_HEIGHT as int)
                    || edge_of_zone(zone) is Some) {
                    Some((PointerFocusTarget::SSD(self.surface), Point { x: 0, y: 0 }))
                } else {
                    None
                }
            },
        }
    }

    /// Finds what is under a point of the window.
    ///
    /// `client_hit` is what the client has at [`WindowElement::client_location`] of the point: a
    /// surface and its place in the client. `inner_geo` is the geometry of the client.
    pub fn surface_under(
        &self,
        location: Position,
        client_hit: Option<(SurfaceId, Point)>,
        inner_geo: Rectangle,
    ) -> (under: Option<(PointerFocusTarget, Point)>)
        requires
            self.decorations.is_ssd ==> in_i32(HEADER_BAR_HEIGHT + inner_geo.size.h),
        ensures
            under == self.target_under(location, client_hit, inner_geo.size),
    {
        let offset = if self.decorations.is_ssd {
            Point { x: 0, y: HEADER_BAR_HEIGHT }
        } else {
            Point { x: 0, y: 0 }
        };
        if let Some((surface, loc)) = client_hit {
            let target = match self.surface {
                WindowSurface::Wayland(_) => PointerFocusTarget::WlSurface(surface),
                WindowSurface::X11(window) => PointerFocusTarget::X11Surface(window),
            };
            return Some((target, loc.plus(offset)));
        }
        if self.decorations.is_ssd {
            if location.y.is_before(HEADER_BAR_HEIGHT as i64) {
                return Some((PointerFocusTarget::SSD(self.surface), Point { x: 0, y: 0 }));
            }
            let button: u32 = self.decorations.header_bar.button_width();
            let zone = ssd_hit_zone(location, inner_geo, button);
            if resize_edge_for_zone(zone).is_some() {
                return Some((PointerFocusTarget::SSD(self.surface), Point { x: 0, y: 0 }));
            }
        }
        None
    }

    /// The geometry of the window: that of the client, taller by the title bar.
    pub fn geometry(&self, inner_geo: Rectangle) -> (geo: Rectangle)
        requires
            in_i32(inner_geo.size.h + self.top_offset()),
        ensures
            geo.loc == inner_geo.loc,
            geo.size.w == inner_geo.size.w,
            geo.size.h == inner_geo.size.h + self.top_offset(),
    {
        let mut geo = inner_geo;
        if self.decorations.is_ssd {
            geo.size.h = geo.size.h + HEADER_BAR_HEIGHT;
        }
        geo
    }

    /// The bounding box of the window: that of the client, taller by the title bar.
    pub fn bbox(&self, inner_bbox: Rectangle) -> (bbox: Rectangle)
        requires
            in_i32(inner_bbox.size.h + self.top_offset()),
        ensures
            bbox.loc == inner_bbox.loc,
            bbox.size.w == inner_bbox.size.w,
            bbox.size.h == inner_bbox.size.h + self.top_offset(),
    {
        let mut bbox = inner_bbox;
        if self.decorations.is_ssd {
            bbox.size.h = bbox.size.h + HEADER_BAR_HEIGHT;
        }
        bbox
    }

    /// Whether the window takes input at a point. `client_takes` is whether the client takes input
    /// at [`WindowElement::client_location`] of the point.
    pub fn is_in_input_region(&self, point: Position, client_takes: bool) -> (result: bool)
        ensures
            result == {
                ||| self.decorations.is_ssd && point.y.before(HEADER_BAR_HEIGHT as int)
                ||| client_takes
            },
    {
        if self.decorations.is_ssd {
            point.y.is_before(HEADER_BAR_HEIGHT as i64) || client_takes
        } else {
            client_takes
        }
    }

    /// Notes the activation of the window in its decorations.
    pub fn set_activate(&mut self, activated: bool)
        ensures
            !old(self).decorations.is_ssd ==> *final(self) == *old(self),
            old(self).decorations.is_ssd ==> *final(self) == (WindowElement {
                decorations: WindowState {
                    header_bar: HeaderBar {
                        is_focused: activated,
                        ..old(self).decorations.header_bar
                    },
                    ..old(self).decorations
                },
                ..*old(self)
            }),
    {
        if self.decorations.is_ssd {
            self.decorations.header_bar.is_focused = activated;
        }
    }

    /// The window is drawn with its decorations.
    pub open spec fn draws_decorations(self, inner_bbox: Rectangle) -> bool {
        self.decorations.is_ssd && inner_bbox.has_area()
    }

    /// The decorations can be drawn around a client of the given size.
    pub open spec fn can_be_drawn(self, client: Size) -> bool {
        let width = wrapped_u32(client.w) as u32;
        let bar = self.decorations.header_bar.widened(width);
        &&& width > 0 ==> bar.has_buttons() && allocatable(width, HEADER_BAR_HEIGHT as u32)
        &&& bar.has_borders(client.h) ==> {
            &&& in_i32(wrapped_i32(width) - bar.config.border_width)
            &&& in_i32(HEADER_BAR_HEIGHT + client.h)
        }
    }

    /// Redraws the decorations as needed and lists what to draw for the window, the topmost
    /// first. A window without decorations or without extent is drawn as its client alone.
    pub fn render_elements(&mut self, inner_bbox: Rectangle, inner_geo: Rectangle) -> (elements:
        Vec<WindowRenderElement>)
        requires
            old(self).draws_decorations(inner_bbox) ==> old(self).can_be_drawn(inner_geo.size),
        ensures
            !old(self).draws_decorations(inner_bbox) ==> {
                &&& *final(self) == *old(self)
                &&& elements@ == seq![WindowRenderElement::Window { below_title_bar: false }]
            },
            old(self).draws_decorations(inner_bbox) ==> {
                let width = wrapped_u32(inner_geo.size.w) as u32;
                let before = old(self).decorations.header_bar;
                let bar = final(self).decorations.header_bar;
                &&& final(self).surface == old(self).surface
                &&& final(self).wl_surface == old(self).wl_surface
                &&& final(self).decorations.is_ssd
                &&& bar.width == width
                &&& width == 0 ==> bar == (HeaderBar {
                    width: 0,
                    title_bar_buffer: None,
                    ..before
                })
                &&& width > 0 ==> bar.is_redrawn(before, inner_geo.size.h)
                &&& elements@ == decorated_elements(bar, inner_geo.size.h)
            },
    {
        let mut elements: Vec<WindowRenderElement> = Vec::new();
        if self.decorations.is_ssd && !inner_bbox.is_empty() {
            let width: i32 = inner_geo.size.w;
            let client_height: i32 = inner_geo.size.h;
            self.decorations.header_bar.redraw(cast_u32(width), client_height);
            let bar = &self.decorations.header_bar;
            // Popups of the client extend beyond it and stay above the decorations.
            elements.push(WindowRenderElement::Window { below_title_bar: true });
            if bar.title_bar_buffer.is_some() {
                elements.push(WindowRenderElement::TitleBar);
            }
            let borders = bar.border_render_elements(client_height);
            let ghost above = elements@;
            let mut i: usize = 0;
            while i < borders.len()
                invariant
                    i <= borders@.len(),
                    elements@ == above + border_elements(borders@.take(i as int)),
                decreases borders.len() - i,
            {
                elements.push(
                    WindowRenderElement::Decoration { offset: borders[i].0, buffer: borders[i].1 },
                );
                i = i + 1;
                assert(elements@ =~= above + border_elements(borders@.take(i as int)));
            }
            assert(borders@.take(i as int) =~= borders@);
            assert(elements@ =~= decorated_elements(*bar, client_height));
        } else {
            elements.push(WindowRenderElement::Window { below_title_bar: false });
        }
        elements
    }
}

/// One thing to draw for a window.
#[derive(Debug, Clone, Copy, PartialEq, Eq, Structural)]
pub enum WindowRenderElement {
    /// The client with its popups, at the place of the window or below its title bar.
    Window { below_title_bar: bool },
    /// The title bar, at the place of the window.
    TitleBar,
    /// A border, at an offset in the window.
    Decoration { offset: Point, buffer: SolidColorBuffer },
}

/// The border elements for a list of places and buffers.
pub open spec fn border_elements(borders: Seq<(Point, SolidColorBuffer)>) -> Seq<
    WindowRenderElement,
> {
    borders.map_values(
        |border: (Point, SolidColorBuffer)|
            WindowRenderElement::Decoration { offset: border.0, buffer: border.1 },
    )
}

/// What to draw for a decorated window, the topmost first: the client, the title bar unless it was
/// dropped, the left, right and bottom border unless there are none.
pub open spec fn decorated_elements(bar: HeaderBar, client_height: i32) -> Seq<WindowRenderElement> {
    let client = seq![WindowRenderElement::Window { below_title_bar: true }];
    let title_bar = match bar.title_bar_buffer {
        Some(_) => seq![WindowRenderElement::TitleBar],
        None => seq![],
    };
    let places = bar.border_places(client_height);
    let borders = if bar.has_borders(client_height) {
        seq![
            WindowRenderElement::Decoration {
                offset: Point { x: places[0].0 as i32, y: places[0].1 as i32 },
                buffer: bar.border_left,
            },
            WindowRenderElement::Decoration {
                offset: Point { x: places[1].0 as i32, y: places[1].1 as i32 },
                buffer: bar.border_right,
            },
            WindowRenderElement::Decoration {
                offset: Point { x: places[2].0 as i32, y: places[2].1 as i32 },
                buffer: bar.border_bottom,
            },
        ]
    } else {
        seq![]
    };
    client + title_bar + borders
}

/// A button was pressed or released.
#[derive(Debug, Clone, Copy, PartialEq, Eq, Structural)]
pub enum ButtonState {
    Released,
    Pressed,
}

/// The decorations of a window as a target of input.
pub struct SSD {
    pub window: WindowElement,
}

impl SSD {
    /// The decorations with the pointer at a place, or left by it.
    pub open spec fn with_pointer(self, loc: Option<Position>) -> SSD {
        SSD {
            window: WindowElement {
                decorations: WindowState {
                    header_bar: HeaderBar { pointer_loc: loc, ..self.window.decorations.header_bar },
                    ..self.window.decorations
                },
                ..self.window
            },
        }
    }

    /// The decorations after a pointer event, where they are shown.
    pub open spec fn noting(self, loc: Option<Position>) -> SSD {
        if self.window.decorations.is_ssd {
            self.with_pointer(loc)
        } else {
            self
        }
    }

    /// The pointer enters the decorations: notes its place and picks the cursor of the zone.
    pub fn enter(
        &mut self,
        location: Position,
        inner_geo: Rectangle,
        cursor_status: &mut CursorImageStatus,
    )
        requires
            old(self).window.decorations.is_ssd ==> in_i32(HEADER_BAR_HEIGHT + inner_geo.size.h),
        ensures
            *final(self) == old(self).noting(Some(location)),
            !old(self).window.decorations.is_ssd ==> *final(cursor_status) == *old(cursor_status),
            old(self).window.decorations.is_ssd ==> final(cursor_status)@ == CursorView::Named(
                zone_cursor(
                    window_zone(
                        location,
                        inner_geo.size,
                        old(self).window.decorations.header_bar.button(),
                    ),
                ),
            ),
    {
        if self.window.decorations.is_ssd {
            self.window.decorations.header_bar.pointer_enter(location);
            let button: u32 = self.window.decorations.header_bar.button_width();
            let zone = ssd_hit_zone(location, inner_geo, button);
            if let Some(edge) = resize_edge_for_zone(zone) {
                *cursor_status = cursor_for_resize_edge(edge);
            } else {
                *cursor_status = CursorImageStatus::default_named();
            }
        }
    }

    /// The pointer moves over the decorations.
    pub fn motion(
        &mut self,
        location: Position,
        inner_geo: Rectangle,
        cursor_status: &mut CursorImageStatus,
    )
        requires
            old(self).window.decorations.is_ssd ==> in_i32(HEADER_BAR_HEIGHT + inner_geo.size.h),
        ensures
            *final(self) == old(self).noting(Some(location)),
            !old(self).window.decorations.is_ssd ==> *final(cursor_status) == *old(cursor_status),
            old(self).window.decorations.is_ssd ==> final(cursor_status)@ == CursorView::Named(
                zone_cursor(
                    window_zone(
                        location,
                        inner_geo.size,
                        old(self).window.decorations.header_bar.button(),
                    ),
                ),
            ),
    {
        self.enter(location, inner_geo, cursor_status);
    }

    /// The pointer leaves the decorations.
    pub fn leave(&mut self, cursor_status: &mut CursorImageStatus)
        ensures
            *final(self) == old(self).noting(None),
            final(cursor_status)@ == CursorView::Named("default"@),
    {
        if self.window.decorations.is_ssd {
            self.window.decorations.header_bar.pointer_leave();
        }
        *cursor_status = CursorImageStatus::default_named();
    }

    /// What a button event on the decorations asks for: something only for a press of the left
    /// button with the pointer on the decorations.
    pub open spec fn button_action(self, state: ButtonState, button: u32, client: Size) -> Option<
        SsdAction,
    > {
        let bar = self.window.decorations.header_bar;
        match bar.pointer_loc {
            Some(loc) if state == ButtonState::Pressed && button == BTN_LEFT
                && self.window.decorations.is_ssd => Some(
                zone_action(window_zone(loc, client, bar.button())),
            ),
            _ => None,
        }
    }

    /// Handles a button event: a left press resizes, closes, maximizes or moves the window.
    pub fn button(
        &self,
        seat: SeatId,
        state: ButtonState,
        button: u32,
        serial: Serial,
        inner_geo: Rectangle,
    ) -> (request: Option<Request>)
        requires
            self.button_action(state, button, inner_geo.size) is Some ==> in_i32(
                HEADER_BAR_HEIGHT + inner_geo.size.h,
            ),
        ensures
            request == match self.button_action(state, button, inner_geo.size) {
                Some(action) => Some(action.request_for(self.window.surface, seat, serial)),
                None => None,
            },
    {
        // Only a left press acts, not a release or another button.
        if state != ButtonState::Pressed || button != BTN_LEFT {
            return None;
        }
        if !self.window.decorations.is_ssd {
            return None;
        }
        let bar = &self.window.decorations.header_bar;
        let loc = match bar.pointer_loc {
            Some(loc) => loc,
            None => {
                return None;
            },
        };
        let zone = ssd_hit_zone(loc, inner_geo, bar.button_width());
        let action = if let Some(edge) = resize_edge_for_zone(zone) {
            SsdAction::Resize(edge)
        } else {
            match zone {
                DecorationHitZone::CloseButton => SsdAction::Close,
                DecorationHitZone::MaximizeButton => SsdAction::Maximize,
                _ => SsdAction::Move,
            }
        };
        Some(action.request(self.window.surface, seat, serial))
    }

    /// Handles the start of a touch: it only starts a move, the buttons act when it ends.
    pub fn down(&mut self, seat: SeatId, location: Position, serial: Serial) -> (request: Option<
        Request,
    >)
        requires
            old(self).window.decorations.is_ssd ==> old(self).with_pointer(
                Some(location),
            ).window.decorations.header_bar.has_buttons(),
        ensures
            *final(self) == old(self).noting(Some(location)),
            request == if old(self).window.decorations.is_ssd && old(self).with_pointer(
                Some(location),
            ).window.decorations.header_bar.hovered() == HoverState::Neither {
                Some(SsdAction::Move.request_for(old(self).window.surface, seat, serial))
            } else {
                None
            },
    {
        if !self.window.decorations.is_ssd {
            return None;
        }
        self.window.decorations.header_bar.pointer_enter(location);
        assert(*self == old(self).with_pointer(Some(location)));
        let surface = self.window.surface;
        self.window.decorations.header_bar.touch_down(seat, surface, serial)
    }

    /// Handles the end of a touch: closes or maximizes the window.
    pub fn up(&self, seat: SeatId, serial: Serial) -> (request: Option<Request>)
        requires
            self.window.decorations.is_ssd ==> self.window.decorations.header_bar.has_buttons(),
        ensures
            request == if self.window.decorations.is_ssd {
                match self.window.decorations.header_bar.touch_up_action() {
                    Some(action) => Some(action.request_for(self.window.surface, seat, serial)),
                    None => None,
                }
            } else {
                None
            },
    {
        if !self.window.decorations.is_ssd {
            return None;
        }
        let bar = &self.window.decorations.header_bar;
        if bar.is_over_close() {
            Some(SsdAction::Close.request(self.window.surface, seat, serial))
        } else if bar.is_over_maximize() {
            Some(SsdAction::Maximize.request(self.window.surface, seat, serial))
        } else {
            None
        }
    }

    /// Handles the motion of a touch.
    pub fn touch_motion(&mut self, location: Position)
        ensures
            *final(self) == old(self).noting(Some(location)),
    {
        if self.window.decorations.is_ssd {
            self.window.decorations.header_bar.pointer_enter(location);
        }
    }
}

/// Releases and other buttons never act on a window.
pub proof fn only_left_presses_act(ssd: SSD, state: ButtonState, button: u32, client: Size)
    requires
        state == ButtonState::Released || button != BTN_LEFT,
    ensures
        ssd.button_action(state, button, client) is None,
{
}

/// The cursor announces the action: a resize cursor shows exactly where a press resizes.
pub proof fn cursors_announce_resizes(zone: DecorationHitZone)
    ensures
        zone_action(zone) is Resize <==> zone_cursor(zone) != "default"@,
        zone_action(zone) matches SsdAction::Resize(edge) ==> zone_cursor(zone) == resize_cursor(
            edge,
        ),
{
    if let Some(edge) = edge_of_zone(zone) {
        if resize_cursor(edge) == "default"@ {
            resize_cursors_tell_edges_apart(edge, ResizeEdge::NoEdge);
        }
    }
}

/// Touches and presses agree about the buttons: below the top edge, the zone of a title bar button
/// is where the header bar sees the pointer over that button.
pub proof fn touches_and_presses_agree(bar: HeaderBar, loc: Position, client: Size)
    requires
        bar.pointer_loc == Some(loc),
        bar.width == client.w,
        loc.y.at_least(EDGE_WIDTH as int),
    ensures
        window_zone(loc, client, bar.button()) == DecorationHitZone::CloseButton
            <==> bar.over_close(),
        window_zone(loc, client, bar.button()) == DecorationHitZone::MaximizeButton
            <==> bar.over_maximize(),
{
}

/// Something of the client is never hidden by the decorations: it is always the first thing under
/// the pointer and the first thing drawn.
pub proof fn clients_come_first(
    window: WindowElement,
    location: Position,
    hit: (SurfaceId, Point),
    client: Size,
    client_height: i32,
)
    ensures
        window.target_under(location, Some(hit), client) matches Some(under) && under.0 !is SSD,
        decorated_elements(window.decorations.header_bar, client_height).first() is Window,
        forall|i: int|
            1 <= i < decorated_elements(window.decorations.header_bar, client_height).len() ==> !(
            #[trigger] decorated_elements(window.decorations.header_bar, client_height)[i] is Window),
{
}

/// An undecorated window has nothing under the pointer but what its client has there.
pub proof fn undecorated_windows_are_their_clients(
    window: WindowElement,
    location: Position,
    client_hit: Option<(SurfaceId, Point)>,
    client: Size,
)
    requires
        !window.decorations.is_ssd,
    ensures
        window.target_under(location, client_hit, client) is Some <==> client_hit is Some,
        client_hit matches Some(hit) ==> {
            let under = window.target_under(location, client_hit, client);
            under is Some && (under->0).1 == hit.1
        },
{
}

/// The name of a resize cursor gives the direction that is dragged: north for the top and south for the
/// bottom come first, west for the left and east for the right come last.
pub proof fn cursors_give_directions(edge: ResizeEdge)
    ensures
        ({
            let name = resize_cursor(edge);
            &&& edge is Top || edge is TopLeft || edge is TopRight ==> name[0] == 'n'
            &&& edge is Bottom || edge is BottomLeft || edge is BottomRight ==> name[0] == 's'
            &&& edge is Left ==> name[0] == 'w'
            &&& edge is Right ==> name[0] == 'e'
            &&& edge is TopLeft || edge is BottomLeft ==> name[1] == 'w'
            &&& edge is TopRight || edge is BottomRight ==> name[1] == 'e'
            &&& edge is Top || edge is Bottom || edge is Left || edge is Right ==> name.skip(1)
                == "-resize"@
            &&& edge is TopLeft || edge is TopRight || edge is BottomLeft || edge is BottomRight
                ==> name.skip(2) == "-resize"@
            &&& edge is NoEdge ==> name == "default"@
        }),
{
    reveal_strlit("n-resize");
    reveal_strlit("s-resize");
    reveal_strlit("w-resize");
    reveal_strlit("e-resize");
    reveal_strlit("nw-resize");
    reveal_strlit("ne-resize");
    reveal_strlit("sw-resize");
    reveal_strlit("se-resize");
    reveal_strlit("-resize");
    let name = resize_cursor(edge);
    if edge is Top || edge is Bottom || edge is Left || edge is Right {
        assert(name.skip(1) =~= "-resize"@);
    } else if !(edge is NoEdge) {
        assert(name.skip(2) =~= "-resize"@);
    }
}

/// Every cursor that the decorations ask for is among those that are loaded at startup.
pub proof fn resize_cursors_are_loaded(edge: ResizeEdge)
    ensures
        crate::cursor::shape_of(resize_cursor(edge)) is Some,
{
    let names = crate::cursor::shape_names();
    let i: int = match edge {
        ResizeEdge::NoEdge => 0,
        ResizeEdge::Left => 1,
        ResizeEdge::Right => 2,
        ResizeEdge::Top => 3,
        ResizeEdge::Bottom => 4,
        ResizeEdge::TopLeft => 5,
        ResizeEdge::TopRight => 6,
        ResizeEdge::BottomLeft => 7,
        ResizeEdge::BottomRight => 8,
    };
    assert(names[i] == resize_cursor(edge));
    crate::cursor::shapes_have_their_own_names(i);
}

/// A left press on the decorations resizes, closes, maximizes or moves the window, depending on where
/// the pointer is: near the edges of the whole window it resizes by the nearest edges, on the title bar
/// the last two button widths are the maximize and the close button. Nothing else acts.
pub proof fn presses_act_where_they_hit(ssd: SSD, state: ButtonState, button: u32, client: Size)
    requires
        ssd.window.decorations.header_bar.config.button_width >= 0,
    ensures
        ({
            let bar = ssd.window.decorations.header_bar;
            let action = ssd.button_action(state, button, client);
            let wide = bar.config.button_width;
            let acts = state == ButtonState::Pressed && button == 0x110
                && ssd.window.decorations.is_ssd && bar.pointer_loc is Some;
            &&& action is Some <==> acts
            &&& bar.pointer_loc matches Some(loc) ==> acts ==> {
                let (x, y) = (loc.x, loc.y);
                let body = !y.before(32);
                let low = body && y.after(32 + client.h - 12);
                let corner = low && (x.before(12) || x.after(client.w - 12));
                let title = y.before(32) && !y.before(6);
                &&& action == Some(SsdAction::Close) <==> title && x.at_least(client.w - wide)
                &&& action == Some(SsdAction::Maximize) <==> title && !x.at_least(client.w - wide)
                    && x.at_least(client.w - 2 * wide)
                &&& action == Some(SsdAction::Resize(ResizeEdge::TopLeft)) <==> y.before(6)
                    && x.before(12)
                &&& action == Some(SsdAction::Resize(ResizeEdge::TopRight)) <==> y.before(6)
                    && !x.before(12) && x.after(client.w - 12)
                &&& action == Some(SsdAction::Resize(ResizeEdge::Top)) <==> y.before(6) && !x.before(
                    12,
                ) && !x.after(client.w - 12)
                &&& action == Some(SsdAction::Resize(ResizeEdge::BottomLeft)) <==> low && x.before(12)
                &&& action == Some(SsdAction::Resize(ResizeEdge::BottomRight)) <==> low && !x.before(
                    12,
                ) && x.after(client.w - 12)
                &&& action == Some(SsdAction::Resize(ResizeEdge::Left)) <==> body && !corner
                    && x.before(6)
                &&& action == Some(SsdAction::Resize(ResizeEdge::Right)) <==> body && !corner
                    && !x.before(6) && x.after(client.w - 6)
                &&& action == Some(SsdAction::Resize(ResizeEdge::Bottom)) <==> body && !corner
                    && !x.before(6) && !x.after(client.w - 6) && y.after(32 + client.h - 6)
            }
        }),
{
}

/// The cursor over the decorations is that of the edge by which a press there would resize, and the
/// default one where a press would not resize.
pub proof fn cursors_match_presses(ssd: SSD, loc: Position, client: Size)
    requires
        ssd.window.decorations.is_ssd,
        ssd.window.decorations.header_bar.pointer_loc == Some(loc),
    ensures
        zone_cursor(
            window_zone(loc, client, ssd.window.decorations.header_bar.button()),
        ) == match ssd.button_action(ButtonState::Pressed, 0x110, client) {
            Some(SsdAction::Resize(edge)) => resize_cursor(edge),
            _ => "default"@,
        },
{
}

/// Where the client has something, that is under the pointer, as far below its place in the client as
/// the title bar is high. Elsewhere a decorated window has its decorations on the title bar and along
/// its edges, at the origin of the window; an undecorated one has nothing.
pub proof fn pointers_hit_clients_or_decorations(
    window: WindowElement,
    location: Position,
    client_hit: Option<(SurfaceId, Point)>,
    client: Size,
)
    requires
        client_hit matches Some((surface, place)) ==> place.y <= i32::MAX - 32,
    ensures
        match (client_hit, window.target_under(location, client_hit, client)) {
            (Some((surface, place)), Some((target, origin))) => {
                &&& window.surface is Wayland ==> target == PointerFocusTarget::WlSurface(surface)
                &&& window.surface matches WindowSurface::X11(id) ==> target
                    == PointerFocusTarget::X11Surface(id)
                &&& origin.x == place.x
                &&& origin.y == place.y + if window.decorations.is_ssd {
                    32int
                } else {
                    0
                }
            },
            (Some(_), None) => false,
            (None, Some((target, origin))) => {
                &&& window.decorations.is_ssd
                &&& target == PointerFocusTarget::SSD(window.surface)
                &&& origin.x == 0 && origin.y == 0
            },
            (None, None) => true,
        },
        client_hit is None && window.decorations.is_ssd ==> (window.target_under(
            location,
            client_hit,
            client,
        ) is Some <==> {
            ||| location.y.before(32)
            ||| location.x.before(6)
            ||| location.x.after(client.w - 6)
            ||| location.y.after(32 + client.h - 6)
            ||| location.y.after(32 + client.h - 12) && location.x.before(12)
            ||| location.y.after(32 + client.h - 12) && location.x.after(client.w - 12)
        }),
{
}

/// A pointer event on shown decorations changes the place of the pointer and nothing else; on hidden
/// ones it changes nothing.
pub proof fn pointer_events_note_the_place(ssd: SSD, loc: Option<Position>)
    ensures
        ({
            let after = ssd.noting(loc);
            let before_bar = ssd.window.decorations.header_bar;
            let after_bar = after.window.decorations.header_bar;
            &&& after.window.decorations.is_ssd == ssd.window.decorations.is_ssd
            &&& after.window.surface == ssd.window.surface
            &&& after.window.wl_surface == ssd.window.wl_surface
            &&& ssd.window.decorations.is_ssd ==> after_bar.pointer_loc == loc
            &&& !ssd.window.decorations.is_ssd ==> after_bar == before_bar
            &&& after_bar.width == before_bar.width
            &&& after_bar.is_focused == before_bar.is_focused
            &&& after_bar.close_button_hover == before_bar.close_button_hover
            &&& after_bar.maximize_button_hover == before_bar.maximize_button_hover
            &&& after_bar.title_bar_buffer == before_bar.title_bar_buffer
            &&& after_bar.border_left == before_bar.border_left
            &&& after_bar.border_right == before_bar.border_right
            &&& after_bar.border_bottom == before_bar.border_bottom
            &&& after_bar.config == before_bar.config
            &&& after_bar.rendered_width == before_bar.rendered_width
            &&& after_bar.rendered_focused == before_bar.rendered_focused
            &&& after_bar.rendered_hover == before_bar.rendered_hover
        }),
{
}

/// A decorated window is drawn as its client, its title bar if there is a drawing of it, and its left,
/// right and bottom border, each with its own buffer and at its own edge of the client.
pub proof fn decorations_are_drawn_around_the_client(bar: HeaderBar, client_height: i32)
    requires
        bar.width <= i32::MAX,
        bar.config.border_width <= bar.width,
        32 + client_height <= i32::MAX,
    ensures
        ({
            let elements = decorated_elements(bar, client_height);
            let border = bar.config.border_width;
            let bordered = border > 0 && client_height > 0 && bar.width > 0;
            let titles = if bar.title_bar_buffer is Some {
                1int
            } else {
                0
            };
            &&& elements[0] == (WindowRenderElement::Window { below_title_bar: true })
            &&& bar.title_bar_buffer is Some ==> elements[1] == WindowRenderElement::TitleBar
            &&& elements.len() == 1 + titles + if bordered {
                3int
            } else {
                0
            }
            &&& bordered ==> {
                &&& elements[titles + 1] matches WindowRenderElement::Decoration { offset, buffer } && {
                    offset.x == 0 && offset.y == 32 && buffer == bar.border_left
                }
                &&& elements[titles + 2] matches WindowRenderElement::Decoration { offset, buffer } && {
                    offset.x == bar.width - border && offset.y == 32 && buffer == bar.border_right
                }
                &&& elements[titles + 3] matches WindowRenderElement::Decoration { offset, buffer } && {
                    offset.x == 0 && offset.y == 32 + client_height - border && buffer
                        == bar.border_bottom
                }
            }
        }),
{
}

/// A title bar is 32 pixels high, above the client of a decorated window and of no other. Decorations
/// are drawn around a client with an extent.
pub proof fn title_bars_are_above_clients(window: WindowElement, inner_bbox: Rectangle)
    ensures
        window.decorations.is_ssd ==> window.top_offset() == 32,
        !window.decorations.is_ssd ==> window.top_offset() == 0,
        window.draws_decorations(inner_bbox) <==> window.decorations.is_ssd && inner_bbox.size.w != 0
            && inner_bbox.size.h != 0,
{
}

} // verus!
