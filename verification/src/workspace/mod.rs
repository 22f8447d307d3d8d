//! Workspaces, and what the event loop knows of the windows and outputs on them.

pub mod ipc;

use vstd::prelude::*;

use crate::utils::{first_from, first_passes, first_where, Point, Rectangle};
use crate::{ClientId, OutputId, SurfaceId, WindowId, WorkspaceId};

verus! {

/// The workspace of the desktop itself.
pub const DESKTOP: WorkspaceId = 0;

/// A surface of a surface tree at the time of a repaint.
#[derive(Debug, Clone, Copy, PartialEq, Eq, Structural)]
pub struct SurfaceView {
    pub id: SurfaceId,
    pub client: ClientId,
    /// A commit of the surface waits for a time.
    pub commit_timer: bool,
    /// A commit of the surface waits for the next frame.
    pub fifo_barrier: bool,
    /// The output that the surface is mainly shown on.
    pub scanout_output: Option<OutputId>,
}

/// A window on a space.
pub struct WindowView {
    pub id: WindowId,
    /// The surface of the window, once it has one.
    pub surface: Option<SurfaceId>,
    /// Geometry with decorations.
    pub geometry: Rectangle,
    /// Place on the space.
    pub location: Point,
    /// The outputs that the window is on.
    pub outputs: Vec<OutputId>,
    /// The surfaces of the window, its popups included.
    pub tree: Vec<SurfaceView>,
}

/// An output of a space.
#[derive(Debug, Clone, Copy, PartialEq, Eq, Structural)]
pub struct OutputView {
    pub id: OutputId,
    /// Geometry on the space, if the output is placed.
    pub geometry: Option<Rectangle>,
    /// What panels leave free of the output, relative to it.
    pub zone: Rectangle,
}

/// A space: windows and outputs, in order.
pub struct SpaceView {
    pub windows: Vec<WindowView>,
    pub outputs: Vec<OutputView>,
}

/// The space of a workspace.
pub struct WorkspaceEntry {
    pub id: WorkspaceId,
    pub space: SpaceView,
}

/// All workspaces by their id, and the space of the desktop. The desktop can be found by its id too,
/// if it is among the entries.
pub struct Workspaces {
    pub desktop: SpaceView,
    pub active: WorkspaceId,
    pub entries: Vec<WorkspaceEntry>,
}

impl SpaceView {
    /// The first window that shows a surface.
    pub open spec fn window_of(self, surface: SurfaceId) -> Option<int> {
        first_where(self.windows@, |window: WindowView| window.surface == Some(surface))
    }

    /// Finds the window that shows a surface.
    pub fn window_for_surface(&self, surface: SurfaceId) -> (found: Option<usize>)
        ensures
            found is Some <==> self.window_of(surface) is Some,
            found matches Some(i) ==> self.window_of(surface) == Some(i as int) && i
                < self.windows@.len(),
    {
        let ghost test = |window: WindowView| window.surface == Some(surface);
        let mut i: usize = 0;
        while i < self.windows.len()
            invariant
                i <= self.windows@.len(),
                test == (|window: WindowView| window.surface == Some(surface)),
                self.window_of(surface) == first_from(self.windows@, test, i as int),
            decreases self.windows.len() - i,
        {
            if let Some(own) = self.windows[i].surface {
                if own == surface {
                    return Some(i);
                }
            }
            i = i + 1;
        }
        None
    }
}

impl Workspaces {
    /// The space that is listed for a workspace.
    pub open spec fn space_of(self, id: WorkspaceId) -> Option<SpaceView> {
        match first_where(self.entries@, |entry: WorkspaceEntry| entry.id == id) {
            Some(i) => Some(self.entries@[i].space),
            None => None,
        }
    }

    /// Finds the space that is listed for a workspace.
    pub fn get_space(&self, id: WorkspaceId) -> (space: Option<&SpaceView>)
        ensures
            space is Some <==> self.space_of(id) is Some,
            space matches Some(found) ==> self.space_of(id) == Some(*found),
    {
        let ghost test = |entry: WorkspaceEntry| entry.id == id;
        let mut i: usize = 0;
        while i < self.entries.len()
            invariant
                i <= self.entries@.len(),
                test == (|entry: WorkspaceEntry| entry.id == id),
                first_where(self.entries@, test) == first_from(self.entries@, test, i as int),
            decreases self.entries.len() - i,
        {
            if self.entries[i].id == id {
                return Some(&self.entries[i].space);
            }
            i = i + 1;
        }
        None
    }

    /// The space of a workspace, or the desktop where there is none.
    pub open spec fn space_or_desktop_of(self, id: Option<WorkspaceId>) -> SpaceView {
        match id {
            Some(id) => match self.space_of(id) {
                Some(space) => space,
                None => self.desktop,
            },
            None => self.desktop,
        }
    }

    /// Finds the space of a workspace, or else the desktop.
    pub fn space_or_desktop(&self, id: Option<WorkspaceId>) -> (space: &SpaceView)
        ensures
            *space == self.space_or_desktop_of(id),
    {
        if let Some(id) = id {
            if let Some(space) = self.get_space(id) {
                return space;
            }
        }
        &self.desktop
    }

    /// The space of the active workspace, if that is not the desktop.
    pub open spec fn active_space_of(self) -> Option<SpaceView> {
        if self.active != DESKTOP {
            self.space_of(self.active)
        } else {
            None
        }
    }

    /// Finds the space of the active workspace, if that is not the desktop.
    pub fn active_space(&self) -> (space: Option<&SpaceView>)
        ensures
            space is Some <==> self.active_space_of() is Some,
            space matches Some(found) ==> self.active_space_of() == Some(*found),
    {
        if self.active != DESKTOP {
            self.get_space(self.active)
        } else {
            None
        }
    }
}

/// What is listed of a workspace.
pub struct WorkspaceInfo {
    pub id: WorkspaceId,
    pub name: String,
}

/// The listed workspace has the name, and a space.
pub open spec fn answers_to(info: WorkspaceInfo, name: Seq<char>, workspaces: Workspaces) -> bool {
    info.name@ == name && workspaces.space_of(info.id) is Some
}

/// The workspace of a name: the first listed one that has the name and a space.
pub open spec fn workspace_named(
    listed: Seq<WorkspaceInfo>,
    name: Seq<char>,
    workspaces: Workspaces,
) -> Option<WorkspaceId> {
    match first_where(listed, |info: WorkspaceInfo| answers_to(info, name, workspaces)) {
        Some(i) => Some(listed[i].id),
        None => None,
    }
}

/// Finds a workspace by its name.
pub fn resolve_workspace_by_name(listed: &Vec<WorkspaceInfo>, name: &str, workspaces: &Workspaces)
    -> (id: Option<WorkspaceId>)
    ensures
        id == workspace_named(listed@, name@, *workspaces),
{
    let ghost test = |info: WorkspaceInfo| answers_to(info, name@, *workspaces);
    let mut i: usize = 0;
    while i < listed.len()
        invariant
            i <= listed@.len(),
            test == (|info: WorkspaceInfo| answers_to(info, name@, *workspaces)),
            first_where(listed@, test) == first_from(listed@, test, i as int),
        decreases listed.len() - i,
    {
        if crate::text::same(listed[i].name.as_str(), name) && workspaces.get_space(
            listed[i].id,
        ).is_some() {
            return Some(listed[i].id);
        }
        i = i + 1;
    }
    None
}

/// A workspace that a name resolves to exists, so what is sent to it arrives.
pub proof fn resolved_workspaces_exist(
    listed: Seq<WorkspaceInfo>,
    name: Seq<char>,
    workspaces: Workspaces,
)
    ensures
        workspace_named(listed, name, workspaces) matches Some(id) ==> workspaces.space_of(
            id,
        ) is Some,
{
    first_passes(listed, |info: WorkspaceInfo| answers_to(info, name, workspaces), 0);
}

/// The window of a surface is the first one with that surface; there is none if no window has it.
pub proof fn windows_are_found_by_surface(space: SpaceView, surface: SurfaceId)
    ensures
        match space.window_of(surface) {
            Some(i) => {
                &&& 0 <= i < space.windows@.len()
                &&& space.windows@[i].surface == Some(surface)
                &&& forall|j: int|
                    0 <= j < i ==> (#[trigger] space.windows@[j]).surface != Some(surface)
            },
            None => forall|j: int|
                0 <= j < space.windows@.len() ==> (#[trigger] space.windows@[j]).surface != Some(
                    surface,
                ),
        },
{
    first_passes(space.windows@, |window: WindowView| window.surface == Some(surface), 0);
}

/// The space of a workspace is that of the first entry with its id; there is none if no entry has it.
pub proof fn spaces_are_found_by_id(workspaces: Workspaces, id: WorkspaceId)
    ensures
        match workspaces.space_of(id) {
            Some(space) => exists|e: int|
                #![trigger workspaces.entries@[e]]
                0 <= e < workspaces.entries@.len() && {
                    &&& workspaces.entries@[e].id == id
                    &&& workspaces.entries@[e].space == space
                    &&& forall|j: int| 0 <= j < e ==> (#[trigger] workspaces.entries@[j]).id != id
                },
            None => forall|j: int|
                0 <= j < workspaces.entries@.len() ==> (#[trigger] workspaces.entries@[j]).id != id,
        },
{
    first_passes(workspaces.entries@, |entry: WorkspaceEntry| entry.id == id, 0);
}

/// What has no workspace, or one that is not listed, is on the desktop; everything else is on the
/// space of its workspace.
pub proof fn homeless_clients_are_on_the_desktop(workspaces: Workspaces, id: WorkspaceId, e: int)
    ensures
        workspaces.space_or_desktop_of(None) == workspaces.desktop,
        (forall|j: int|
            0 <= j < workspaces.entries@.len() ==> (#[trigger] workspaces.entries@[j]).id != id)
            ==> workspaces.space_or_desktop_of(Some(id)) == workspaces.desktop,
        0 <= e < workspaces.entries@.len() && workspaces.entries@[e].id == id && (forall|j: int|
            0 <= j < e ==> (#[trigger] workspaces.entries@[j]).id != id)
            ==> workspaces.space_or_desktop_of(Some(id)) == workspaces.entries@[e].space,
{
    spaces_are_found_by_id(workspaces, id);
}

/// The desktop is never the active space, even if it is listed among the workspaces. Any other
/// active workspace is, if it is listed.
pub proof fn active_spaces_are_listed(workspaces: Workspaces, e: int)
    ensures
        workspaces.active == 0 ==> workspaces.active_space_of() is None,
        (forall|j: int|
            0 <= j < workspaces.entries@.len() ==> (#[trigger] workspaces.entries@[j]).id
                != workspaces.active) ==> workspaces.active_space_of() is None,
        workspaces.active != 0 && 0 <= e < workspaces.entries@.len() && workspaces.entries@[e].id
            == workspaces.active && (forall|j: int|
            0 <= j < e ==> (#[trigger] workspaces.entries@[j]).id != workspaces.active)
            ==> workspaces.active_space_of() == Some(workspaces.entries@[e].space),
{
    spaces_are_found_by_id(workspaces, workspaces.active);
}

/// An entry with the id is among the entries.
pub open spec fn is_listed(workspaces: Workspaces, id: WorkspaceId) -> bool {
    exists|e: int| 0 <= e < workspaces.entries@.len() && (#[trigger] workspaces.entries@[e]).id == id
}

/// A name resolves to the first workspace with exactly that name among those that have an entry, and
/// to none if there is no such workspace.
pub proof fn names_resolve_in_order(
    listed: Seq<WorkspaceInfo>,
    name: Seq<char>,
    workspaces: Workspaces,
)
    ensures
        match workspace_named(listed, name, workspaces) {
            Some(id) => exists|i: int|
                #![trigger listed[i]]
                0 <= i < listed.len() && {
                    &&& listed[i].id == id
                    &&& listed[i].name@ == name
                    &&& is_listed(workspaces, id)
                    &&& forall|j: int|
                        0 <= j < i ==> (#[trigger] listed[j]).name@ != name || !is_listed(
                            workspaces,
                            listed[j].id,
                        )
                },
            None => forall|j: int|
                0 <= j < listed.len() ==> (#[trigger] listed[j]).name@ != name || !is_listed(
                    workspaces,
                    listed[j].id,
                ),
        },
{
    let test = |info: WorkspaceInfo| answers_to(info, name, workspaces);
    first_passes(listed, test, 0);
    assert forall|id: WorkspaceId| #[trigger] is_listed(workspaces, id) <==> workspaces.space_of(
        id,
    ) is Some by {
        spaces_are_found_by_id(workspaces, id);
    }
    assert forall|j: int| 0 <= j < listed.len() implies (test(#[trigger] listed[j]) <==> (
    listed[j].name@ == name && is_listed(workspaces, listed[j].id))) by {}
    if let Some(i) = first_where(listed, test) {
        assert(listed[i].id == workspace_named(listed, name, workspaces)->0);
    }
}

} // verus!
