//! Windows and what surrounds them: decorations, grabs, placement.

pub mod element;
pub mod grabs;
pub mod snap;
pub mod ssd;
pub mod xdg;

use vstd::prelude::*;

use self::grabs::ResizeEdge;
use crate::utils::Serial;
use crate::{SeatId, ToplevelId, X11WindowId};

verus! {

/// What a window shows.
#[derive(Debug, Clone, Copy, PartialEq, Eq, Structural)]
pub enum WindowSurface {
    Wayland(ToplevelId),
    X11(X11WindowId),
}

/// What an input on the decorations asks for.
#[derive(Debug, Clone, Copy, PartialEq, Eq, Structural)]
pub enum SsdAction {
    Close,
    Maximize,
    Move,
    Resize(ResizeEdge),
}

/// A request to a window or to the compositor itself.
///
/// Closing a window and maximizing a Wayland toplevel happen at once. The other requests wait until
/// the event loop is idle.
#[derive(Debug, Clone, Copy, PartialEq, Eq, Structural)]
pub enum Request {
    SendClose(ToplevelId),
    CloseX11(X11WindowId),
    Maximize(ToplevelId),
    MaximizeX11(X11WindowId),
    Move { toplevel: ToplevelId, seat: SeatId, serial: Serial },
    MoveX11(X11WindowId),
    Resize { window: WindowSurface, seat: SeatId, serial: Serial, edges: ResizeEdge },
}

impl SsdAction {
    /// The request that an action on the decorations of a window stands for.
    pub open spec fn request_for(self, surface: WindowSurface, seat: SeatId, serial: Serial)
        -> Request {
        match self {
            SsdAction::Close => match surface {
                WindowSurface::Wayland(toplevel) => Request::SendClose(toplevel),
                WindowSurface::X11(window) => Request::CloseX11(window),
            },
            SsdAction::Maximize => match surface {
                WindowSurface::Wayland(toplevel) => Request::Maximize(toplevel),
                WindowSurface::X11(window) => Request::MaximizeX11(window),
            },
            SsdAction::Move => match surface {
                WindowSurface::Wayland(toplevel) => Request::Move { toplevel, seat, serial },
                WindowSurface::X11(window) => Request::MoveX11(window),
            },
            SsdAction::Resize(edges) => Request::Resize { window: surface, seat, serial, edges },
        }
    }

    pub fn request(self, surface: WindowSurface, seat: SeatId, serial: Serial) -> (request: Request)
        ensures
            request == self.request_for(surface, seat, serial),
    {
        match self {
            SsdAction::Close => match surface {
                WindowSurface::Wayland(toplevel) => Request::SendClose(toplevel),
                WindowSurface::X11(window) => Request::CloseX11(window),
            },
            SsdAction::Maximize => match surface {
                WindowSurface::Wayland(toplevel) => Request::Maximize(toplevel),
                WindowSurface::X11(window) => Request::MaximizeX11(window),
            },
            SsdAction::Move => match surface {
                WindowSurface::Wayland(toplevel) => Request::Move { toplevel, seat, serial },
                WindowSurface::X11(window) => Request::MoveX11(window),
            },
            SsdAction::Resize(edges) => Request::Resize { window: surface, seat, serial, edges },
        }
    }
}

/// Every request goes to the window that was acted on; a resize of it has the edges that were dragged,
/// and moves and resizes have the seat and the serial of the input.
pub proof fn requests_go_to_the_window(
    surface: WindowSurface,
    edges: ResizeEdge,
    seat: SeatId,
    serial: Serial,
)
    ensures
        match surface {
            WindowSurface::Wayland(toplevel) => {
                &&& SsdAction::Close.request_for(surface, seat, serial) == Request::SendClose(
                    toplevel,
                )
                &&& SsdAction::Maximize.request_for(surface, seat, serial) == Request::Maximize(
                    toplevel,
                )
                &&& SsdAction::Move.request_for(surface, seat, serial) == (Request::Move {
                    toplevel,
                    seat,
                    serial,
                })
            },
            WindowSurface::X11(window) => {
                &&& SsdAction::Close.request_for(surface, seat, serial) == Request::CloseX11(window)
                &&& SsdAction::Maximize.request_for(surface, seat, serial) == Request::MaximizeX11(
                    window,
                )
                &&& SsdAction::Move.request_for(surface, seat, serial) == Request::MoveX11(window)
            },
        },
        SsdAction::Resize(edges).request_for(surface, seat, serial) == (Request::Resize {
            window: surface,
            seat,
            serial,
            edges,
        }),
{
}

} // verus!
