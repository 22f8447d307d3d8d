use anvil::state::{AnvilState, Features};
use anvil::utils::Size;
use anvil::workspace::ipc::{
    find_kiosk_surface, finish_ipc_command, maps_export_output, IpcAction, IpcCommand, IpcContext,
    IpcOutcome, IpcReply, IpcStep, KioskCandidate, SpawnOutcome,
};
use anvil::workspace::{
    resolve_workspace_by_name, SpaceView, WorkspaceEntry, WorkspaceInfo, Workspaces,
};

fn state() -> AnvilState {
    let features = Features { relative_motion: false, gestures: false, xwayland: false };
    let socket = Some("wayland-1".to_string());
    AnvilState::init(features, "seat0".to_string(), 1, 2, socket, None).state
}

fn space() -> SpaceView {
    SpaceView { windows: Vec::new(), outputs: Vec::new() }
}

fn workspaces() -> Workspaces {
    Workspaces {
        desktop: space(),
        active: 0,
        entries: vec![WorkspaceEntry { id: 0, space: space() }, WorkspaceEntry { id: 12, space: space() }],
    }
}

fn context() -> IpcContext {
    IpcContext { subscribed: Vec::new(), desktop_mode: None, candidates: Vec::new() }
}

fn candidate(surface: Option<u64>, app_id: &str) -> KioskCandidate {
    KioskCandidate {
        surface,
        app_id: app_id.to_string(),
        is_aidesktop: app_id == "manji.aidesktop",
    }
}

fn failure(step: IpcStep) -> String {
    match step {
        IpcStep::Reply(IpcReply::Failed { message }) => message,
        _ => panic!("not a failure"),
    }
}

fn refusal(reply: IpcReply) -> String {
    match reply {
        IpcReply::Failed { message } => message,
        _ => panic!("not a failure"),
    }
}

#[test]
fn finding_the_kiosk() {
    let local = "chrome-127.0.0.1__drive-Default";
    assert_eq!(find_kiosk_surface(&Vec::new()), None);
    assert_eq!(find_kiosk_surface(&vec![candidate(None, "manji.aidesktop")]), None);
    assert_eq!(
        find_kiosk_surface(&vec![candidate(None, local), candidate(Some(1), ""), candidate(Some(2), "x")]),
        Some(1)
    );
    assert_eq!(
        find_kiosk_surface(&vec![
            candidate(Some(1), "x"),
            candidate(Some(2), "chrome-127.0.0.1"),
            candidate(Some(3), local),
            candidate(Some(4), local),
        ]),
        Some(3)
    );
    assert_eq!(
        find_kiosk_surface(&vec![
            candidate(Some(1), "x"),
            candidate(Some(3), local),
            candidate(Some(5), "manji.aidesktop"),
        ]),
        Some(5)
    );
    // Another host with the same beginning is no kiosk.
    assert_eq!(
        find_kiosk_surface(&vec![
            candidate(Some(1), "chrome-127.0.0.10-Default"),
            candidate(Some(3), local),
        ]),
        Some(3)
    );
}

#[test]
fn names_of_workspaces() {
    let info = |id: u32, name: &str| WorkspaceInfo { id, name: name.to_string() };
    let listed = vec![info(9, "ai"), info(12, "ai"), info(0, "desktop")];
    assert_eq!(resolve_workspace_by_name(&listed, "ai", &workspaces()), Some(12));
    assert_eq!(resolve_workspace_by_name(&listed, "desktop", &workspaces()), Some(0));
    assert_eq!(resolve_workspace_by_name(&listed, "AI", &workspaces()), None);
}

#[test]
fn creating() {
    let mut state = state();
    let command = IpcCommand::Create { name: "ai".to_string() };
    let step = state.handle_ipc_command(&command, &workspaces(), &context());
    assert!(matches!(step, IpcStep::Perform(IpcAction::CreateWorkspace)));
    let reply = finish_ipc_command(&command, IpcOutcome::Created(13));
    assert!(matches!(reply, IpcReply::Created { id: 13, name } if name == "ai"));
    assert!(maps_export_output(13));
    assert!(!maps_export_output(0));
}

#[test]
fn destroying() {
    let mut state = state();
    state.ensure_workspace_socket(12, true);
    let desktop = IpcCommand::Destroy { id: 0 };
    let step = state.handle_ipc_command(&desktop, &workspaces(), &context());
    assert_eq!(failure(step), "cannot destroy workspace 0 (desktop)");
    assert_eq!(state.workspace_sockets.len(), 1);

    let command = IpcCommand::Destroy { id: 12 };
    let step = state.handle_ipc_command(&command, &workspaces(), &context());
    assert!(matches!(step, IpcStep::Perform(IpcAction::DestroyWorkspace)));
    assert!(state.workspace_sockets.is_empty());
    let reply = finish_ipc_command(&command, IpcOutcome::Destroyed(true));
    assert!(matches!(reply, IpcReply::Done { id: 12 }));
    let reply = finish_ipc_command(&command, IpcOutcome::Destroyed(false));
    assert_eq!(refusal(reply), "workspace 12 not found");
}

#[test]
fn subscribing() {
    let mut state = state();
    let command = IpcCommand::Subscribe { id: 12 };
    let step = state.handle_ipc_command(&command, &workspaces(), &context());
    assert!(matches!(
        step,
        IpcStep::PerformThenReply(
            IpcAction::Mirror { width: 1920, height: 1080 },
            IpcReply::Done { id: 12 }
        )
    ));
    let with_mode = IpcContext { desktop_mode: Some(Size { w: 800, h: 600 }), ..context() };
    let step = state.handle_ipc_command(&command, &workspaces(), &with_mode);
    assert!(matches!(
        step,
        IpcStep::PerformThenReply(IpcAction::Mirror { width: 800, height: 600 }, _)
    ));
    let again = IpcContext { subscribed: vec![12], ..context() };
    let step = state.handle_ipc_command(&command, &workspaces(), &again);
    assert_eq!(failure(step), "workspace 12 already subscribed");
    let unknown = IpcCommand::Subscribe { id: 77 };
    let step = state.handle_ipc_command(&unknown, &workspaces(), &again);
    assert_eq!(failure(step), "workspace 77 not found");
}

#[test]
fn unsubscribing() {
    let mut state = state();
    let command = IpcCommand::Unsubscribe { id: 12 };
    let step = state.handle_ipc_command(&command, &workspaces(), &context());
    assert!(matches!(step, IpcStep::Perform(IpcAction::Unmirror)));
    let reply = finish_ipc_command(&command, IpcOutcome::Unmirrored(true));
    assert!(matches!(reply, IpcReply::Done { id: 12 }));
    let reply = finish_ipc_command(&command, IpcOutcome::Unmirrored(false));
    assert_eq!(refusal(reply), "workspace 12 not subscribed");
}

#[test]
fn listing_and_input() {
    let mut state = state();
    let step = state.handle_ipc_command(&IpcCommand::List, &workspaces(), &context());
    assert!(matches!(
        step,
        IpcStep::PerformThenReply(IpcAction::ListWorkspaces, IpcReply::Listed)
    ));
    let step = state.handle_ipc_command(&IpcCommand::Input, &workspaces(), &context());
    assert!(matches!(
        step,
        IpcStep::PerformThenReply(IpcAction::DispatchInput, IpcReply::InputDispatched)
    ));
}

#[test]
fn driving_a_workspace() {
    let mut state = state();
    let engage = IpcCommand::EngagePeacock { id: 12 };
    let armed = IpcContext { candidates: vec![candidate(Some(5), "x")], ..context() };
    let step = state.handle_ipc_command(&engage, &workspaces(), &armed);
    assert!(matches!(
        step,
        IpcStep::PerformThenReply(
            IpcAction::FocusKeyboards(Some(5)),
            IpcReply::Engaged { id: 12, bridge_armed: true }
        )
    ));
    assert_eq!((state.drive_mode, state.drive_mode_target), (Some(12), Some(5)));
    let disengage = IpcCommand::DisengagePeacock;
    let step = state.handle_ipc_command(&disengage, &workspaces(), &context());
    assert!(matches!(
        step,
        IpcStep::PerformThenReply(
            IpcAction::FocusKeyboards(None),
            IpcReply::Disengaged { bridge_released: true }
        )
    ));
    assert_eq!((state.drive_mode, state.drive_mode_target), (None, None));

    let step = state.handle_ipc_command(&engage, &workspaces(), &context());
    assert!(matches!(
        step,
        IpcStep::Reply(IpcReply::Engaged { id: 12, bridge_armed: false })
    ));
    assert_eq!((state.drive_mode, state.drive_mode_target), (Some(12), None));
    let unknown = IpcCommand::EngagePeacock { id: 7 };
    let step = state.handle_ipc_command(&unknown, &workspaces(), &armed);
    assert_eq!(failure(step), "workspace 7 not found");
    assert_eq!((state.drive_mode, state.drive_mode_target), (Some(12), None));
    let step = state.handle_ipc_command(&disengage, &workspaces(), &context());
    assert!(matches!(
        step,
        IpcStep::PerformThenReply(_, IpcReply::Disengaged { bridge_released: false })
    ));
}

#[test]
fn spawning() {
    let mut state = state();
    let spawn = |id: u32| IpcCommand::Spawn { id, command: "foot".to_string(), args: Vec::new() };
    let step = state.handle_ipc_command(&spawn(12), &workspaces(), &context());
    assert!(matches!(step, IpcStep::Perform(IpcAction::Spawn)));
    // Without a socket of its own the workspace has the main one.
    let reply = state.finish_spawn(12, false, SpawnOutcome::Running(98));
    assert!(matches!(
        reply,
        IpcReply::Spawned { pid: 98, workspace_id: 12, socket } if socket == "wayland-1"
    ));
    let told = state.ensure_workspace_socket(12, true);
    let reply = state.finish_spawn(12, true, SpawnOutcome::Running(99));
    assert!(matches!(
        reply,
        IpcReply::Spawned { pid: 99, workspace_id: 12, socket } if socket == told
    ));
    assert_eq!(told, "wayland-ws-12");
    let reason = "no such file".to_string();
    let reply = state.finish_spawn(13, true, SpawnOutcome::Failed(reason));
    assert_eq!(refusal(reply), "spawn failed: no such file");
    assert_eq!(state.missing_socket(13), None);
    let step = state.handle_ipc_command(&spawn(7), &workspaces(), &context());
    assert_eq!(failure(step), "workspace 7 not found");
}

#[test]
fn sockets_of_workspaces() {
    let mut state = state();
    assert_eq!(state.missing_socket(12).as_deref(), Some("wayland-ws-12"));
    assert_eq!(state.ensure_workspace_socket(12, false), "wayland-1");
    assert!(state.workspace_sockets.is_empty());
    assert_eq!(state.ensure_workspace_socket(12, true), "wayland-ws-12");
    assert_eq!(state.missing_socket(12), None);
    assert_eq!(state.ensure_workspace_socket(12, false), "wayland-ws-12");
    assert_eq!(state.ensure_workspace_socket(120, true), "wayland-ws-120");
    assert_eq!(state.workspace_sockets.len(), 2);
    state.socket_name = None;
    assert_eq!(state.ensure_workspace_socket(3, false), "");
}
