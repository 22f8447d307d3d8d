//! Workspace commands: lifecycle, mirroring, driving, spawning.
//!
//! A command is handled in two halves. [`AnvilState::handle_ipc_command`] decides, and changes what
//! the state knows. Where something is left to be done in the outside world it names an action.
//! Where the reply depends on how that goes, [`finish_ipc_command`] gives it afterwards, or
//! [`AnvilState::finish_spawn`] for a program.

use vstd::prelude::*;

use super::{Workspaces, DESKTOP};
use crate::state::AnvilState;
use crate::text::{
    begins_with, decimal, ends_with, finishes_with, numeral, numerals_are_distinct, starts_with,
};
use crate::utils::{first_from, first_passes, first_where, Size};
use crate::{SurfaceId, WorkspaceId};

verus! {

/// A window that may be the kiosk of a workspace.
pub struct KioskCandidate {
    /// The surface of the window, once it has one.
    pub surface: Option<SurfaceId>,
    /// The application that the window belongs to; empty if it did not say.
    pub app_id: String,
    /// The application is the kiosk by its exact name.
    pub is_aidesktop: bool,
}

impl KioskCandidate {
    /// The window can be driven: it has a surface.
    pub open spec fn is_there(self) -> bool {
        self.surface is Some
    }

    /// The window is the kiosk by the exact name of its application.
    pub open spec fn is_kiosk(self) -> bool {
        self.surface is Some && self.is_aidesktop
    }

    /// The window is a browser in application mode on the local address: its application is
    /// `chrome-127.0.0.1__*-Default`.
    pub open spec fn is_browser(self) -> bool {
        &&& self.surface is Some
        &&& begins_with(self.app_id@, "chrome-127.0.0.1__"@)
        &&& finishes_with(self.app_id@, "-Default"@)
    }
}

/// The surface of the kiosk among the windows of a workspace: the first window that is the kiosk by
/// name, else the first local browser, else the first window.
pub open spec fn kiosk_surface(candidates: Seq<KioskCandidate>) -> Option<SurfaceId> {
    match first_where(candidates, |c: KioskCandidate| c.is_kiosk()) {
        Some(i) => candidates[i].surface,
        None => match first_where(candidates, |c: KioskCandidate| c.is_browser()) {
            Some(i) => candidates[i].surface,
            None => match first_where(candidates, |c: KioskCandidate| c.is_there()) {
                Some(i) => candidates[i].surface,
                None => None,
            },
        },
    }
}

/// Finds the surface of the kiosk among the windows of a workspace.
pub fn find_kiosk_surface(candidates: &Vec<KioskCandidate>) -> (surface: Option<SurfaceId>)
    ensures
        surface == kiosk_surface(candidates@),
{
    let ghost kiosk = |c: KioskCandidate| c.is_kiosk();
    let ghost browser = |c: KioskCandidate| c.is_browser();
    let ghost there = |c: KioskCandidate| c.is_there();
    let mut first_fallback: Option<SurfaceId> = None;
    let mut browser_fallback: Option<SurfaceId> = None;
    let ghost mut first_at: int = 0;
    let ghost mut browser_at: int = 0;
    let mut i: usize = 0;
    while i < candidates.len()
        invariant
            i <= candidates@.len(),
            kiosk == (|c: KioskCandidate| c.is_kiosk()),
            browser == (|c: KioskCandidate| c.is_browser()),
            there == (|c: KioskCandidate| c.is_there()),
            first_where(candidates@, kiosk) == first_from(candidates@, kiosk, i as int),
            match first_fallback {
                Some(surface) => {
                    &&& first_where(candidates@, there) == Some(first_at)
                    &&& candidates@[first_at].surface == Some(surface)
                },
                None => first_where(candidates@, there) == first_from(candidates@, there, i as int),
            },
            match browser_fallback {
                Some(surface) => {
                    &&& first_where(candidates@, browser) == Some(browser_at)
                    &&& candidates@[browser_at].surface == Some(surface)
                },
                None => first_where(candidates@, browser) == first_from(
                    candidates@,
                    browser,
                    i as int,
                ),
            },
        decreases candidates.len() - i,
    {
        let candidate = &candidates[i];
        if let Some(surface) = candidate.surface {
            if candidate.is_aidesktop {
                return Some(surface);
            }
            let app_id = candidate.app_id.as_str();
            if starts_with(app_id, "chrome-127.0.0.1__") && ends_with(app_id, "-Default") {
                if browser_fallback.is_none() {
                    browser_fallback = Some(surface);
                    proof {
                        browser_at = i as int;
                    }
                }
            }
            if first_fallback.is_none() {
                first_fallback = Some(surface);
                proof {
                    first_at = i as int;
                }
            }
        }
        i = i + 1;
    }
    if browser_fallback.is_some() {
        browser_fallback
    } else {
        first_fallback
    }
}

/// A command to the compositor.
pub enum IpcCommand {
    Create { name: String },
    Destroy { id: WorkspaceId },
    Subscribe { id: WorkspaceId },
    Unsubscribe { id: WorkspaceId },
    List,
    /// The user drives a workspace.
    EngagePeacock { id: WorkspaceId },
    /// The user stops driving.
    DisengagePeacock,
    Spawn { id: WorkspaceId, command: String, args: Vec<String> },
    /// Pointer or keyboard input, which is dispatched elsewhere.
    Input,
}

/// The reply to a command.
pub enum IpcReply {
    Created { id: WorkspaceId, name: String },
    Done { id: WorkspaceId },
    /// The list of workspaces.
    Listed,
    Engaged { id: WorkspaceId, bridge_armed: bool },
    Disengaged { bridge_released: bool },
    Spawned { pid: u32, workspace_id: WorkspaceId, socket: String },
    InputDispatched,
    Failed { message: String },
}

/// What a reply says.
pub enum ReplyView {
    Created { id: WorkspaceId, name: Seq<char> },
    Done { id: WorkspaceId },
    Listed,
    Engaged { id: WorkspaceId, bridge_armed: bool },
    Disengaged { bridge_released: bool },
    Spawned { pid: u32, workspace_id: WorkspaceId, socket: Seq<char> },
    InputDispatched,
    Failed { message: Seq<char> },
}

impl View for IpcReply {
    type V = ReplyView;

    open spec fn view(&self) -> ReplyView {
        match *self {
            IpcReply::Created { id, name } => ReplyView::Created { id, name: name@ },
            IpcReply::Done { id } => ReplyView::Done { id },
            IpcReply::Listed => ReplyView::Listed,
            IpcReply::Engaged { id, bridge_armed } => ReplyView::Engaged { id, bridge_armed },
            IpcReply::Disengaged { bridge_released } => ReplyView::Disengaged { bridge_released },
            IpcReply::Spawned { pid, workspace_id, socket } => ReplyView::Spawned {
                pid,
                workspace_id,
                socket: socket@,
            },
            IpcReply::InputDispatched => ReplyView::InputDispatched,
            IpcReply::Failed { message } => ReplyView::Failed { message: message@ },
        }
    }
}

/// What is left to be done for a command.
#[derive(Debug, Clone, Copy, PartialEq, Eq, Structural)]
pub enum IpcAction {
    CreateWorkspace,
    /// Ends the mirroring of the workspace, if it is mirrored, and destroys it.
    DestroyWorkspace,
    /// Makes a virtual output of this size that mirrors the workspace.
    Mirror { width: i32, height: i32 },
    Unmirror,
    ListWorkspaces,
    /// Gives the keyboard focus of both seats to the window with this surface, or to nothing.
    FocusKeyboards(Option<SurfaceId>),
    /// Starts the program of the command in its workspace, on the socket that
    /// [`AnvilState::ensure_workspace_socket`] gives for it; [`AnvilState::finish_spawn`] replies.
    Spawn,
    DispatchInput,
}

/// The first half of handling a command.
pub enum IpcStep {
    /// Nothing is left to be done.
    Reply(IpcReply),
    /// The reply is this one, however the action goes.
    PerformThenReply(IpcAction, IpcReply),
    /// The reply depends on how the action goes.
    Perform(IpcAction),
}

/// What a step is.
pub enum StepView {
    Reply(ReplyView),
    PerformThenReply(IpcAction, ReplyView),
    Perform(IpcAction),
}

impl View for IpcStep {
    type V = StepView;

    open spec fn view(&self) -> StepView {
        match *self {
            IpcStep::Reply(reply) => StepView::Reply(reply@),
            IpcStep::PerformThenReply(action, reply) => StepView::PerformThenReply(action, reply@),
            IpcStep::Perform(action) => StepView::Perform(action),
        }
    }
}

/// How an action went.
pub enum IpcOutcome {
    /// A workspace was created, with this id.
    Created(WorkspaceId),
    /// A workspace was destroyed, or there was none.
    Destroyed(bool),
    /// A workspace is not mirrored any more, or it was not.
    Unmirrored(bool),
}

/// How the start of a program went.
pub enum SpawnOutcome {
    /// It runs with this process id.
    Running(u32),
    /// It could not be started, for this reason.
    Failed(String),
}

/// Size of a mirror where the desktop has no output with a mode.
pub const DEFAULT_MIRROR_SIZE: (i32, i32) = (1920, 1080);

/// What commands need to know besides the state.
pub struct IpcContext {
    /// The workspaces that are mirrored.
    pub subscribed: Vec<WorkspaceId>,
    /// The mode of the first output of the desktop.
    pub desktop_mode: Option<Size>,
    /// The windows of the workspace that the command is about.
    pub candidates: Vec<KioskCandidate>,
}

/// The message for a workspace that is not there.
pub open spec fn not_found(id: WorkspaceId) -> Seq<char> {
    "workspace "@ + numeral(id as nat) + " not found"@
}

/// The message for a workspace that is already mirrored.
pub open spec fn already_subscribed(id: WorkspaceId) -> Seq<char> {
    "workspace "@ + numeral(id as nat) + " already subscribed"@
}

/// The message for a workspace that is not mirrored.
pub open spec fn not_subscribed(id: WorkspaceId) -> Seq<char> {
    "workspace "@ + numeral(id as nat) + " not subscribed"@
}

/// The message for an attempt to destroy the desktop.
pub open spec fn desktop_stays() -> Seq<char> {
    "cannot destroy workspace 0 (desktop)"@
}

fn about_workspace(id: WorkspaceId, what: &str) -> (reply: IpcReply)
    ensures
        reply@ == (ReplyView::Failed {
            message: "workspace "@ + numeral(id as nat) + what@,
        }),
{
    let mut message = "workspace ".to_owned();
    message.append(decimal(id).as_str());
    message.append(what);
    IpcReply::Failed { message }
}

fn contains_id(list: &Vec<WorkspaceId>, id: WorkspaceId) -> (result: bool)
    ensures
        result == list@.contains(id),
{
    let mut i: usize = 0;
    while i < list.len()
        invariant
            i <= list@.len(),
            forall|j: int| 0 <= j < i ==> list@[j] != id,
        decreases list.len() - i,
    {
        if list[i] == id {
            return true;
        }
        i = i + 1;
    }
    false
}

/// The name that the socket of a workspace gets.
pub open spec fn socket_name_of(id: WorkspaceId) -> Seq<char> {
    "wayland-ws-"@ + numeral(id as nat)
}

impl AnvilState {
    /// What the first half of a command comes to.
    pub open spec fn step_for(
        self,
        command: IpcCommand,
        workspaces: Workspaces,
        context: IpcContext,
    ) -> StepView {
        match command {
            IpcCommand::Create { .. } => StepView::Perform(IpcAction::CreateWorkspace),
            IpcCommand::Destroy { id } => if id == DESKTOP {
                StepView::Reply(ReplyView::Failed { message: desktop_stays() })
            } else {
                StepView::Perform(IpcAction::DestroyWorkspace)
            },
            IpcCommand::Subscribe { id } => if workspaces.space_of(id) is None {
                StepView::Reply(ReplyView::Failed { message: not_found(id) })
            } else if context.subscribed@.contains(id) {
                StepView::Reply(ReplyView::Failed { message: already_subscribed(id) })
            } else {
                let (width, height) = match context.desktop_mode {
                    Some(size) => (size.w, size.h),
                    None => DEFAULT_MIRROR_SIZE,
                };
                StepView::PerformThenReply(
                    IpcAction::Mirror { width, height },
                    ReplyView::Done { id },
                )
            },
            IpcCommand::Unsubscribe { .. } => StepView::Perform(IpcAction::Unmirror),
            IpcCommand::List => StepView::PerformThenReply(
                IpcAction::ListWorkspaces,
                ReplyView::Listed,
            ),
            IpcCommand::EngagePeacock { id } => if workspaces.space_of(id) is None {
                StepView::Reply(ReplyView::Failed { message: not_found(id) })
            } else {
                match kiosk_surface(context.candidates@) {
                    Some(kiosk) => StepView::PerformThenReply(
                        IpcAction::FocusKeyboards(Some(kiosk)),
                        ReplyView::Engaged { id, bridge_armed: true },
                    ),
                    None => StepView::Reply(ReplyView::Engaged { id, bridge_armed: false }),
                }
            },
            IpcCommand::DisengagePeacock => StepView::PerformThenReply(
                IpcAction::FocusKeyboards(None),
                ReplyView::Disengaged { bridge_released: self.drive_mode_target is Some },
            ),
            IpcCommand::Spawn { id, .. } => if workspaces.space_of(id) is None {
                StepView::Reply(ReplyView::Failed { message: not_found(id) })
            } else {
                StepView::Perform(IpcAction::Spawn)
            },
            IpcCommand::Input => StepView::PerformThenReply(
                IpcAction::DispatchInput,
                ReplyView::InputDispatched,
            ),
        }
    }

    /// The workspace that the user drives after a command, and the surface that input goes to.
    pub open spec fn drive_after(
        self,
        command: IpcCommand,
        workspaces: Workspaces,
        context: IpcContext,
    ) -> (Option<WorkspaceId>, Option<SurfaceId>) {
        match command {
            IpcCommand::EngagePeacock { id } if workspaces.space_of(id) is Some => (
                Some(id),
                kiosk_surface(context.candidates@),
            ),
            IpcCommand::DisengagePeacock => (None, None),
            _ => (self.drive_mode, self.drive_mode_target),
        }
    }

    /// The sockets of workspaces after a command: a destroyed workspace loses its own.
    pub open spec fn sockets_after(self, command: IpcCommand) -> Map<WorkspaceId, String> {
        match command {
            IpcCommand::Destroy { id } if id != DESKTOP => self.workspace_sockets@.remove(id),
            _ => self.workspace_sockets@,
        }
    }

    /// Handles a command, as far as the state decides it.
    pub fn handle_ipc_command(
        &mut self,
        command: &IpcCommand,
        workspaces: &Workspaces,
        context: &IpcContext,
    ) -> (step: IpcStep)
        ensures
            step@ == old(self).step_for(*command, *workspaces, *context),
            (final(self).drive_mode, final(self).drive_mode_target) == old(self).drive_after(
                *command,
                *workspaces,
                *context,
            ),
            final(self).workspace_sockets@ == old(self).sockets_after(*command),
            *final(self) == (AnvilState {
                drive_mode: final(self).drive_mode,
                drive_mode_target: final(self).drive_mode_target,
                workspace_sockets: final(self).workspace_sockets,
                ..*old(self)
            }),
    {
        broadcast use vstd::std_specs::hash::group_hash_axioms;

        match command {
            IpcCommand::Create { .. } => IpcStep::Perform(IpcAction::CreateWorkspace),
            IpcCommand::Destroy { id } => {
                if *id == DESKTOP {
                    return IpcStep::Reply(
                        IpcReply::Failed {
                            message: "cannot destroy workspace 0 (desktop)".to_owned(),
                        },
                    );
                }
                self.workspace_sockets.remove(id);
                IpcStep::Perform(IpcAction::DestroyWorkspace)
            },
            IpcCommand::Subscribe { id } => {
                if workspaces.get_space(*id).is_none() {
                    return IpcStep::Reply(about_workspace(*id, " not found"));
                }
                if contains_id(&context.subscribed, *id) {
                    return IpcStep::Reply(about_workspace(*id, " already subscribed"));
                }
                let (width, height) = match context.desktop_mode {
                    Some(size) => (size.w, size.h),
                    None => DEFAULT_MIRROR_SIZE,
                };
                IpcStep::PerformThenReply(
                    IpcAction::Mirror { width, height },
                    IpcReply::Done { id: *id },
                )
            },
            IpcCommand::Unsubscribe { .. } => IpcStep::Perform(IpcAction::Unmirror),
            IpcCommand::List => IpcStep::PerformThenReply(
                IpcAction::ListWorkspaces,
                IpcReply::Listed,
            ),
            IpcCommand::EngagePeacock { id } => {
                if workspaces.get_space(*id).is_none() {
                    return IpcStep::Reply(about_workspace(*id, " not found"));
                }
                self.drive_mode = Some(*id);
                let kiosk = find_kiosk_surface(&context.candidates);
                self.drive_mode_target = kiosk;
                // Both seats: the kiosk sees only the seat of its workspace.
                if kiosk.is_some() {
                    IpcStep::PerformThenReply(
                        IpcAction::FocusKeyboards(kiosk),
                        IpcReply::Engaged { id: *id, bridge_armed: true },
                    )
                } else {
                    IpcStep::Reply(IpcReply::Engaged { id: *id, bridge_armed: false })
                }
            },
            IpcCommand::DisengagePeacock => {
                self.drive_mode = None;
                let was_armed = self.drive_mode_target.is_some();
                self.drive_mode_target = None;
                IpcStep::PerformThenReply(
                    IpcAction::FocusKeyboards(None),
                    IpcReply::Disengaged { bridge_released: was_armed },
                )
            },
            IpcCommand::Spawn { id, .. } => {
                if workspaces.get_space(*id).is_none() {
                    return IpcStep::Reply(about_workspace(*id, " not found"));
                }
                IpcStep::Perform(IpcAction::Spawn)
            },
            IpcCommand::Input => IpcStep::PerformThenReply(
                IpcAction::DispatchInput,
                IpcReply::InputDispatched,
            ),
        }
    }

    /// The name of the socket that has to be made for a workspace, if it has none yet.
    pub fn missing_socket(&self, id: WorkspaceId) -> (name: Option<String>)
        ensures
            name is Some <==> !self.workspace_sockets@.contains_key(id),
            name matches Some(text) ==> text@ == socket_name_of(id),
    {
        broadcast use vstd::std_specs::hash::group_hash_axioms;

        if self.workspace_sockets.contains_key(&id) {
            None
        } else {
            let mut name = "wayland-ws-".to_owned();
            name.append(decimal(id).as_str());
            Some(name)
        }
    }

    /// The socket that programs for a workspace connect to: its own, or else the main one, or else
    /// none by name. `created` is whether a missing socket could be made.
    pub open spec fn socket_for(self, id: WorkspaceId, created: bool) -> Seq<char> {
        if self.workspace_sockets@.contains_key(id) {
            self.workspace_sockets@[id]@
        } else if created {
            socket_name_of(id)
        } else {
            match self.socket_name {
                Some(name) => name@,
                None => Seq::empty(),
            }
        }
    }

    /// Makes sure that a workspace has a socket, and gives its name. `created` is whether the
    /// socket that [`AnvilState::missing_socket`] names could be made; it does not matter where
    /// none is missing.
    pub fn ensure_workspace_socket(&mut self, id: WorkspaceId, created: bool) -> (name: String)
        ensures
            name@ == old(self).socket_for(id, created),
            *final(self) == (AnvilState {
                workspace_sockets: final(self).workspace_sockets,
                ..*old(self)
            }),
            final(self).has_ensured_socket(*old(self), id, created),
    {
        broadcast use vstd::std_specs::hash::group_hash_axioms;

        if let Some(name) = self.workspace_sockets.get(&id) {
            return name.clone();
        }
        if created {
            let mut name = "wayland-ws-".to_owned();
            name.append(decimal(id).as_str());
            let kept = name.clone();
            self.workspace_sockets.insert(id, kept);
            assert(kept@ == socket_name_of(id));
            name
        } else {
            match &self.socket_name {
                Some(name) => name.clone(),
                None => String::new(),
            }
        }
    }
}

/// The message for a program that could not be started.
pub open spec fn spawn_failed(reason: Seq<char>) -> Seq<char> {
    "spawn failed: "@ + reason
}

/// The reply to the start of a program on a socket.
pub open spec fn spawn_reply(id: WorkspaceId, socket: Seq<char>, outcome: SpawnOutcome)
    -> ReplyView {
    match outcome {
        SpawnOutcome::Running(pid) => ReplyView::Spawned { pid, workspace_id: id, socket },
        SpawnOutcome::Failed(reason) => ReplyView::Failed { message: spawn_failed(reason@) },
    }
}

impl AnvilState {
    /// The sockets of workspaces are as they were, or a missing one was added.
    pub open spec fn has_ensured_socket(self, before: AnvilState, id: WorkspaceId, created: bool)
        -> bool {
        if before.workspace_sockets@.contains_key(id) || !created {
            self.workspace_sockets@ == before.workspace_sockets@
        } else {
            exists|made: String|
                made@ == socket_name_of(id) && self.workspace_sockets@
                    == #[trigger] before.workspace_sockets@.insert(id, made)
        }
    }

    /// Gives the reply to the start of a program in a workspace, once it went as given. The program
    /// was started on the socket that [`AnvilState::ensure_workspace_socket`] gave for the same
    /// workspace and the same `created`, and the reply names that socket.
    pub fn finish_spawn(&mut self, id: WorkspaceId, created: bool, outcome: SpawnOutcome) -> (reply:
        IpcReply)
        ensures
            reply@ == spawn_reply(id, old(self).socket_for(id, created), outcome),
            *final(self) == (AnvilState {
                workspace_sockets: final(self).workspace_sockets,
                ..*old(self)
            }),
            final(self).has_ensured_socket(*old(self), id, created),
    {
        let socket = self.ensure_workspace_socket(id, created);
        match outcome {
            SpawnOutcome::Running(pid) => IpcReply::Spawned { pid, workspace_id: id, socket },
            SpawnOutcome::Failed(reason) => {
                let mut message = "spawn failed: ".to_owned();
                message.append(reason.as_str());
                IpcReply::Failed { message }
            },
        }
    }
}

/// A program is told the socket that the reply names: once a workspace has its socket, or could not
/// get one, the socket for its programs is the same as before.
pub proof fn programs_use_the_socket_of_the_reply(
    before: AnvilState,
    after: AnvilState,
    id: WorkspaceId,
    created: bool,
)
    requires
        after.socket_name == before.socket_name,
        after.has_ensured_socket(before, id, created),
    ensures
        after.socket_for(id, created) == before.socket_for(id, created),
{
}

/// The outcome is one of the action that the command is left with.
pub open spec fn is_outcome_of(command: IpcCommand, outcome: IpcOutcome) -> bool {
    match command {
        IpcCommand::Create { .. } => outcome is Created,
        IpcCommand::Destroy { .. } => outcome is Destroyed,
        IpcCommand::Unsubscribe { .. } => outcome is Unmirrored,
        _ => false,
    }
}

/// The reply to a command whose action went as given.
pub open spec fn reply_for(command: IpcCommand, outcome: IpcOutcome) -> ReplyView {
    match (command, outcome) {
        (IpcCommand::Create { name }, IpcOutcome::Created(id)) => ReplyView::Created {
            id,
            name: name@,
        },
        (IpcCommand::Destroy { id }, IpcOutcome::Destroyed(found)) => if found {
            ReplyView::Done { id }
        } else {
            ReplyView::Failed { message: not_found(id) }
        },
        (IpcCommand::Unsubscribe { id }, IpcOutcome::Unmirrored(found)) => if found {
            ReplyView::Done { id }
        } else {
            ReplyView::Failed { message: not_subscribed(id) }
        },
        _ => ReplyView::InputDispatched,
    }
}

/// Gives the reply to a command once its action is done.
pub fn finish_ipc_command(command: &IpcCommand, outcome: IpcOutcome) -> (reply: IpcReply)
    requires
        is_outcome_of(*command, outcome),
    ensures
        reply@ == reply_for(*command, outcome),
{
    match (command, outcome) {
        (IpcCommand::Create { name }, IpcOutcome::Created(id)) => IpcReply::Created {
            id,
            name: name.clone(),
        },
        (IpcCommand::Destroy { id }, IpcOutcome::Destroyed(found)) => if found {
            IpcReply::Done { id: *id }
        } else {
            about_workspace(*id, " not found")
        },
        (IpcCommand::Unsubscribe { id }, IpcOutcome::Unmirrored(found)) => if found {
            IpcReply::Done { id: *id }
        } else {
            about_workspace(*id, " not subscribed")
        },
        _ => IpcReply::InputDispatched,
    }
}

/// Decides if the export output is mapped to a workspace that was just created: to all but the
/// desktop, so that its clients have an output to fill.
pub fn maps_export_output(id: WorkspaceId) -> (result: bool)
    ensures
        result == (id != DESKTOP),
{
    id > DESKTOP
}

/// The desktop is never destroyed, and an attempt changes nothing.
pub proof fn the_desktop_stays(state: AnvilState, workspaces: Workspaces, context: IpcContext)
    ensures
        ({
            let command = IpcCommand::Destroy { id: DESKTOP };
            &&& state.step_for(command, workspaces, context) == StepView::Reply(
                ReplyView::Failed { message: desktop_stays() },
            )
            &&& state.sockets_after(command) == state.workspace_sockets@
            &&& state.drive_after(command, workspaces, context) == (
                state.drive_mode,
                state.drive_mode_target,
            )
        }),
{
}

/// Commands about a workspace that is not there fail and change nothing.
pub proof fn missing_workspaces_are_refused(
    state: AnvilState,
    command: IpcCommand,
    id: WorkspaceId,
    workspaces: Workspaces,
    context: IpcContext,
)
    requires
        workspaces.space_of(id) is None,
        ({
            ||| command == (IpcCommand::Subscribe { id })
            ||| command == (IpcCommand::EngagePeacock { id })
            ||| command matches IpcCommand::Spawn { id: own, .. } && own == id
        }),
    ensures
        state.step_for(command, workspaces, context) == StepView::Reply(
            ReplyView::Failed { message: not_found(id) },
        ),
        state.sockets_after(command) == state.workspace_sockets@,
        state.drive_after(command, workspaces, context) == (
            state.drive_mode,
            state.drive_mode_target,
        ),
{
}

/// Driving ends where it began: after engaging and disengaging nothing is driven, and disengaging
/// reports a released bridge if and only if engaging reported an armed one.
pub proof fn disengaging_undoes_engaging(
    before: AnvilState,
    engaged: AnvilState,
    id: WorkspaceId,
    workspaces: Workspaces,
    context: IpcContext,
)
    requires
        workspaces.space_of(id) is Some,
        (engaged.drive_mode, engaged.drive_mode_target) == before.drive_after(
            IpcCommand::EngagePeacock { id },
            workspaces,
            context,
        ),
    ensures
        engaged.drive_after(IpcCommand::DisengagePeacock, workspaces, context) == (
            None::<WorkspaceId>,
            None::<SurfaceId>,
        ),
        ({
            let armed = match before.step_for(
                IpcCommand::EngagePeacock { id },
                workspaces,
                context,
            ) {
                StepView::Reply(reply) => reply,
                StepView::PerformThenReply(_, reply) => reply,
                StepView::Perform(_) => ReplyView::Listed,
            };
            let released = engaged.step_for(IpcCommand::DisengagePeacock, workspaces, context);
            &&& armed matches ReplyView::Engaged { id: own, bridge_armed } && own == id
                && released == StepView::PerformThenReply(
                IpcAction::FocusKeyboards(None),
                ReplyView::Disengaged { bridge_released: bridge_armed },
            )
        }),
{
}

/// The kiosk that is found is a window of the workspace, and if any window of the workspace has a
/// surface, one is found.
pub proof fn kiosks_are_windows(candidates: Seq<KioskCandidate>)
    ensures
        kiosk_surface(candidates) matches Some(surface) ==> exists|i: int|
            0 <= i < candidates.len() && (#[trigger] candidates[i]).surface == Some(surface),
        (exists|i: int| 0 <= i < candidates.len() && (#[trigger] candidates[i]).is_there())
            ==> kiosk_surface(candidates) is Some,
{
    first_passes(candidates, |c: KioskCandidate| c.is_kiosk(), 0);
    first_passes(candidates, |c: KioskCandidate| c.is_browser(), 0);
    first_passes(candidates, |c: KioskCandidate| c.is_there(), 0);
}

/// A window that is the kiosk by name is preferred to all others.
pub proof fn named_kiosks_are_preferred(candidates: Seq<KioskCandidate>, i: int)
    requires
        0 <= i < candidates.len(),
        candidates[i].is_kiosk(),
    ensures
        exists|k: int|
            0 <= k <= i && (#[trigger] candidates[k]).is_kiosk() && kiosk_surface(candidates)
                == candidates[k].surface,
{
    first_passes(candidates, |c: KioskCandidate| c.is_kiosk(), 0);
}

/// Workspaces do not share sockets: the names that they get are all different.
pub proof fn socket_names_are_distinct(a: WorkspaceId, b: WorkspaceId)
    requires
        socket_name_of(a) == socket_name_of(b),
    ensures
        a == b,
{
    let prefix = "wayland-ws-"@;
    assert(socket_name_of(a).skip(prefix.len() as int) =~= numeral(a as nat));
    assert(socket_name_of(b).skip(prefix.len() as int) =~= numeral(b as nat));
    numerals_are_distinct(a as nat, b as nat);
}

/// A socket is made once: after that the workspace has a socket of that name, whatever comes of a
/// second attempt.
pub proof fn sockets_are_made_once(
    before: AnvilState,
    after: AnvilState,
    made: String,
    id: WorkspaceId,
    created_again: bool,
)
    requires
        !before.workspace_sockets@.contains_key(id),
        made@ == socket_name_of(id),
        after.workspace_sockets@ == before.workspace_sockets@.insert(id, made),
    ensures
        after.workspace_sockets@.contains_key(id),
        after.socket_for(id, created_again) == before.socket_for(id, true),
{
}

/// Commands about a workspace that is listed do what they say: a subscription mirrors it, unless it is
/// mirrored already, at the size of the desktop; driving it gives the keyboards to its kiosk; a
/// program is started in it.
pub proof fn listed_workspaces_are_served(
    state: AnvilState,
    id: WorkspaceId,
    program: IpcCommand,
    workspaces: Workspaces,
    context: IpcContext,
)
    requires
        super::is_listed(workspaces, id),
        program matches IpcCommand::Spawn { id: own, .. } && own == id,
    ensures
        ({
            let subscribe = state.step_for(IpcCommand::Subscribe { id }, workspaces, context);
            let engage = state.step_for(IpcCommand::EngagePeacock { id }, workspaces, context);
            let kiosk = kiosk_surface(context.candidates@);
            let driven = state.drive_after(IpcCommand::EngagePeacock { id }, workspaces, context);
            &&& context.subscribed@.contains(id) ==> subscribe == StepView::Reply(
                ReplyView::Failed {
                    message: "workspace "@ + numeral(id as nat) + " already subscribed"@,
                },
            )
            &&& !context.subscribed@.contains(id) ==> {
                &&& subscribe matches StepView::PerformThenReply(action, reply) && {
                    &&& reply == (ReplyView::Done { id })
                    &&& context.desktop_mode matches Some(size) ==> action == (IpcAction::Mirror {
                        width: size.w,
                        height: size.h,
                    })
                    &&& context.desktop_mode is None ==> action == (IpcAction::Mirror {
                        width: 1920,
                        height: 1080,
                    })
                }
            }
            &&& kiosk is Some ==> engage == StepView::PerformThenReply(
                IpcAction::FocusKeyboards(kiosk),
                ReplyView::Engaged { id, bridge_armed: true },
            )
            &&& kiosk is None ==> engage == StepView::Reply(
                ReplyView::Engaged { id, bridge_armed: false },
            )
            &&& driven.0 == Some(id)
            &&& driven.1 == kiosk
            &&& state.step_for(program, workspaces, context) == StepView::Perform(IpcAction::Spawn)
        }),
{
    super::spaces_are_found_by_id(workspaces, id);
}

/// Commands about a workspace that is not listed are refused with a message that names it.
pub proof fn unlisted_workspaces_are_refused(
    state: AnvilState,
    id: WorkspaceId,
    program: IpcCommand,
    workspaces: Workspaces,
    context: IpcContext,
)
    requires
        !super::is_listed(workspaces, id),
        program matches IpcCommand::Spawn { id: own, .. } && own == id,
    ensures
        ({
            let refusal = StepView::Reply(
                ReplyView::Failed {
                    message: "workspace "@ + numeral(id as nat) + " not found"@,
                },
            );
            &&& state.step_for(IpcCommand::Subscribe { id }, workspaces, context) == refusal
            &&& state.step_for(IpcCommand::EngagePeacock { id }, workspaces, context) == refusal
            &&& state.step_for(program, workspaces, context) == refusal
        }),
{
    super::spaces_are_found_by_id(workspaces, id);
}

/// The other commands are not about what is listed: each one is left with its own action, and the reply
/// that does not wait for it is its own. Stopping to drive takes the keyboards from every window.
pub proof fn other_commands_are_passed_on(
    state: AnvilState,
    name: String,
    id: WorkspaceId,
    workspaces: Workspaces,
    context: IpcContext,
)
    ensures
        state.step_for(IpcCommand::Create { name }, workspaces, context) == StepView::Perform(
            IpcAction::CreateWorkspace,
        ),
        id != 0 ==> state.step_for(IpcCommand::Destroy { id }, workspaces, context)
            == StepView::Perform(IpcAction::DestroyWorkspace),
        state.step_for(IpcCommand::Destroy { id: 0 }, workspaces, context) == StepView::Reply(
            ReplyView::Failed { message: "cannot destroy workspace 0 (desktop)"@ },
        ),
        state.step_for(IpcCommand::Unsubscribe { id }, workspaces, context) == StepView::Perform(
            IpcAction::Unmirror,
        ),
        state.step_for(IpcCommand::List, workspaces, context) == StepView::PerformThenReply(
            IpcAction::ListWorkspaces,
            ReplyView::Listed,
        ),
        state.step_for(IpcCommand::Input, workspaces, context) == StepView::PerformThenReply(
            IpcAction::DispatchInput,
            ReplyView::InputDispatched,
        ),
        state.step_for(IpcCommand::DisengagePeacock, workspaces, context)
            == StepView::PerformThenReply(
            IpcAction::FocusKeyboards(None),
            ReplyView::Disengaged { bridge_released: state.drive_mode_target is Some },
        ),
        state.drive_after(IpcCommand::DisengagePeacock, workspaces, context).0 is None,
        state.drive_after(IpcCommand::DisengagePeacock, workspaces, context).1 is None,
{
}

/// Only starting and stopping to drive changes what is driven, and only destroying a workspace takes a
/// socket away, namely that of the workspace.
pub proof fn commands_change_nothing_else(
    state: AnvilState,
    command: IpcCommand,
    other: WorkspaceId,
    workspaces: Workspaces,
    context: IpcContext,
)
    ensures
        !(command is EngagePeacock) && !(command is DisengagePeacock) ==> {
            &&& state.drive_after(command, workspaces, context).0 == state.drive_mode
            &&& state.drive_after(command, workspaces, context).1 == state.drive_mode_target
        },
        !(command is Destroy) ==> state.sockets_after(command) == state.workspace_sockets@,
        command matches IpcCommand::Destroy { id } ==> {
            &&& id != 0 ==> !state.sockets_after(command).contains_key(id)
            &&& id != other || id == 0 ==> {
                &&& state.sockets_after(command).contains_key(other)
                    <==> state.workspace_sockets@.contains_key(other)
                &&& state.workspace_sockets@.contains_key(other) ==> state.sockets_after(
                    command,
                )[other] == state.workspace_sockets@[other]
            }
        },
{
}

/// The kiosk of a workspace is the first window with a surface that is the kiosk by name. If there is
/// none, it is the first one with a surface whose application is a local browser in application mode.
/// If there is none of these either, it is the first window with a surface.
pub proof fn kiosks_are_picked_in_order(candidates: Seq<KioskCandidate>, i: int)
    requires
        0 <= i < candidates.len(),
        candidates[i].surface is Some,
    ensures
        candidates[i].is_aidesktop && (forall|j: int|
            0 <= j < i ==> (#[trigger] candidates[j]).surface is None || !candidates[j].is_aidesktop)
            ==> kiosk_surface(candidates) == candidates[i].surface,
        (forall|j: int|
            0 <= j < candidates.len() ==> (#[trigger] candidates[j]).surface is None
                || !candidates[j].is_aidesktop) ==> {
            &&& is_local_browser(candidates[i].app_id@) && (forall|j: int|
                0 <= j < i ==> (#[trigger] candidates[j]).surface is None || !is_local_browser(
                    candidates[j].app_id@,
                )) ==> kiosk_surface(candidates) == candidates[i].surface
            &&& (forall|j: int|
                0 <= j < candidates.len() ==> (#[trigger] candidates[j]).surface is None
                    || !is_local_browser(candidates[j].app_id@)) && (forall|j: int|
                0 <= j < i ==> (#[trigger] candidates[j]).surface is None) ==> kiosk_surface(
                candidates,
            ) == candidates[i].surface
        },
{
    first_passes(candidates, |c: KioskCandidate| c.is_kiosk(), 0);
    first_passes(candidates, |c: KioskCandidate| c.is_browser(), 0);
    first_passes(candidates, |c: KioskCandidate| c.is_there(), 0);
}

/// The application is a browser in application mode on the local address.
pub open spec fn is_local_browser(app_id: Seq<char>) -> bool {
    begins_with(app_id, "chrome-127.0.0.1__"@) && finishes_with(app_id, "-Default"@)
}

/// A workspace without windows that have a surface has no kiosk.
pub proof fn empty_workspaces_have_no_kiosk(candidates: Seq<KioskCandidate>)
    requires
        forall|j: int| 0 <= j < candidates.len() ==> (#[trigger] candidates[j]).surface is None,
    ensures
        kiosk_surface(candidates) is None,
{
    first_passes(candidates, |c: KioskCandidate| c.is_kiosk(), 0);
    first_passes(candidates, |c: KioskCandidate| c.is_browser(), 0);
    first_passes(candidates, |c: KioskCandidate| c.is_there(), 0);
}

/// Programs connect to the socket of their workspace, if it has one or could get one. Otherwise they
/// connect to the main socket, and if there is none, to none by name.
pub proof fn programs_connect_to_their_workspace(state: AnvilState, id: WorkspaceId, created: bool)
    ensures
        state.workspace_sockets@.contains_key(id) ==> state.socket_for(id, created)
            == state.workspace_sockets@[id]@,
        !state.workspace_sockets@.contains_key(id) && created ==> state.socket_for(id, created)
            == "wayland-ws-"@ + numeral(id as nat),
        !state.workspace_sockets@.contains_key(id) && !created && state.socket_name is Some
            ==> state.socket_for(id, created) == state.socket_name->0@,
        !state.workspace_sockets@.contains_key(id) && !created && state.socket_name is None
            ==> state.socket_for(id, created).len() == 0,
{
}

/// Making sure that a workspace has a socket gives one to that workspace if it had none and one could be
/// made. No other workspace gets or loses a socket, and none is ever replaced.
pub proof fn ensured_sockets_leave_the_others(
    before: AnvilState,
    after: AnvilState,
    id: WorkspaceId,
    other: WorkspaceId,
    created: bool,
)
    requires
        after.has_ensured_socket(before, id, created),
    ensures
        after.workspace_sockets@.contains_key(id) <==> before.workspace_sockets@.contains_key(id)
            || created,
        other != id ==> (after.workspace_sockets@.contains_key(other)
            <==> before.workspace_sockets@.contains_key(other)),
        before.workspace_sockets@.contains_key(other) ==> after.workspace_sockets@[other]
            == before.workspace_sockets@[other],
        !before.workspace_sockets@.contains_key(id) && created ==> after.workspace_sockets@[id]@
            == "wayland-ws-"@ + numeral(id as nat),
{
}

/// A created workspace is replied with its id and the name that was asked for. What was destroyed or
/// unsubscribed is replied with the id that was asked for, and what was not there is refused.
pub proof fn replies_name_what_was_asked_for(name: String, id: WorkspaceId, made: WorkspaceId)
    ensures
        reply_for(IpcCommand::Create { name }, IpcOutcome::Created(made)) == (ReplyView::Created {
            id: made,
            name: name@,
        }),
        reply_for(IpcCommand::Destroy { id }, IpcOutcome::Destroyed(true)) == (ReplyView::Done { id }),
        reply_for(IpcCommand::Destroy { id }, IpcOutcome::Destroyed(false)) == (ReplyView::Failed {
            message: "workspace "@ + numeral(id as nat) + " not found"@,
        }),
        reply_for(IpcCommand::Unsubscribe { id }, IpcOutcome::Unmirrored(true)) == (
        ReplyView::Done { id }),
        reply_for(IpcCommand::Unsubscribe { id }, IpcOutcome::Unmirrored(false)) == (
        ReplyView::Failed { message: "workspace "@ + numeral(id as nat) + " not subscribed"@ }),
{
}

/// A running program is replied with its process, its workspace and its socket; one that could not be
/// started with the reason.
pub proof fn programs_are_reported(
    id: WorkspaceId,
    socket: Seq<char>,
    pid: u32,
    reason: String,
)
    ensures
        spawn_reply(id, socket, SpawnOutcome::Running(pid)) == (ReplyView::Spawned {
            pid,
            workspace_id: id,
            socket,
        }),
        spawn_reply(id, socket, SpawnOutcome::Failed(reason)) == (ReplyView::Failed {
            message: "spawn failed: "@ + reason@,
        }),
{
}

/// Messages about different workspaces are different.
pub proof fn messages_tell_workspaces_apart(a: WorkspaceId, b: WorkspaceId)
    requires
        not_found(a) == not_found(b) || already_subscribed(a) == already_subscribed(b)
            || not_subscribed(a) == not_subscribed(b),
    ensures
        a == b,
{
    let front = "workspace "@.len() as int;
    let number_a = numeral(a as nat);
    let number_b = numeral(b as nat);
    let tail = if not_found(a) == not_found(b) {
        " not found"@
    } else if already_subscribed(a) == already_subscribed(b) {
        " already subscribed"@
    } else {
        " not subscribed"@
    };
    let text_a = "workspace "@ + number_a + tail;
    let text_b = "workspace "@ + number_b + tail;
    assert(text_a == text_b);
    assert(text_a.len() == text_b.len());
    assert(number_a =~= text_a.subrange(front, front + number_a.len()));
    assert(number_b =~= text_b.subrange(front, front + number_b.len()));
    numerals_are_distinct(a as nat, b as nat);
}

} // verus!
