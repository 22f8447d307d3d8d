use anvil::repaint::{
    take_presentation_feedback, update_primary_scanout_output, FrameTarget, LayerView, RepaintStep,
    Scene,
};
use anvil::shell::element::CursorImageStatus;
use anvil::state::{AnvilState, Features};
use anvil::utils::{Point, Rectangle, Size};
use anvil::workspace::{SpaceView, SurfaceView, WindowView, WorkspaceEntry, Workspaces};

fn state() -> AnvilState {
    let features = Features { relative_motion: false, gestures: false, xwayland: false };
    AnvilState::init(features, "seat0".to_string(), 1, 2, None, None).state
}

/// A surface that waits for both a time and a frame.
fn surface(id: u64, client: u64, scanout_output: Option<u64>) -> SurfaceView {
    SurfaceView { id, client, commit_timer: true, fifo_barrier: true, scanout_output }
}

fn idle(id: u64, client: u64) -> SurfaceView {
    SurfaceView { id, client, commit_timer: false, fifo_barrier: false, scanout_output: None }
}

fn window(id: u64, outputs: Vec<u64>, tree: Vec<SurfaceView>) -> WindowView {
    WindowView {
        id,
        surface: None,
        geometry: Rectangle::new(Point { x: 0, y: 0 }, Size { w: 1, h: 1 }),
        location: Point { x: 0, y: 0 },
        outputs,
        tree,
    }
}

fn workspaces(active: u32) -> Workspaces {
    Workspaces {
        desktop: SpaceView {
            windows: vec![
                window(50, vec![1], vec![surface(10, 100, Some(1)), idle(11, 101)]),
                window(51, vec![2], vec![surface(12, 100, None)]),
            ],
            outputs: Vec::new(),
        },
        active,
        entries: vec![WorkspaceEntry {
            id: 3,
            space: SpaceView {
                windows: vec![window(52, vec![1], vec![surface(13, 102, Some(2))])],
                outputs: Vec::new(),
            },
        }],
    }
}

fn scene() -> Scene {
    Scene {
        layers: vec![LayerView { id: 20, tree: vec![surface(20, 103, Some(1))] }],
        cursor_tree: vec![surface(30, 100, None)],
        dnd_tree: vec![surface(31, 104, None)],
    }
}

#[test]
fn before_a_repaint_timers_are_signaled() {
    let plan = state().pre_repaint(&workspaces(0), &scene());
    assert_eq!(plan.signaled, vec![10, 12, 20]);
    assert_eq!(plan.cleared, vec![100, 103]);
}

#[test]
fn the_active_workspace_is_told_too() {
    let mut state = state();
    state.cursor_status = CursorImageStatus::Surface(30);
    state.dnd_requested(Some(31));
    let plan = state.pre_repaint(&workspaces(3), &scene());
    assert_eq!(plan.signaled, vec![10, 12, 13, 20, 30, 31]);
    assert_eq!(plan.cleared, vec![100, 102, 103, 104]);
    // A workspace that is gone: the desktop alone.
    let plan = state.pre_repaint(&workspaces(7), &scene());
    assert_eq!(plan.signaled, vec![10, 12, 20, 30, 31]);
}

#[test]
fn after_a_repaint_of_the_desktop() {
    let plan = state().post_repaint(1, &workspaces(0), &scene(), false);
    assert_eq!(
        plan.steps,
        vec![
            RepaintStep::SetPreferredScale { surface: 10, output: 1 },
            RepaintStep::SignalFifo(10),
            RepaintStep::SendFrame(FrameTarget::Window(50)),
            RepaintStep::SignalFifo(12),
            RepaintStep::SetPreferredScale { surface: 20, output: 1 },
            RepaintStep::SignalFifo(20),
            RepaintStep::SendFrame(FrameTarget::Layer(20)),
        ]
    );
    assert_eq!(plan.cleared, vec![100, 103]);
}

#[test]
fn after_a_repaint_of_a_workspace() {
    let mut state = state();
    state.cursor_status = CursorImageStatus::Surface(30);
    state.dnd_requested(Some(31));
    let plan = state.post_repaint(1, &workspaces(3), &scene(), true);
    assert_eq!(
        plan.steps,
        vec![
            // Shown on another output, so no signal.
            RepaintStep::SetPreferredScale { surface: 13, output: 2 },
            RepaintStep::SendFrame(FrameTarget::Window(52)),
            RepaintStep::SendDmabufFeedback(FrameTarget::Window(52)),
            RepaintStep::SetPreferredScale { surface: 20, output: 1 },
            RepaintStep::SignalFifo(20),
            RepaintStep::SendFrame(FrameTarget::Layer(20)),
            RepaintStep::SendDmabufFeedback(FrameTarget::Layer(20)),
            RepaintStep::SignalFifo(30),
            RepaintStep::SignalFifo(31),
        ]
    );
    assert_eq!(plan.cleared, vec![103, 100, 104]);
}

#[test]
fn every_shown_surface_gets_an_output() {
    let all = workspaces(0);
    let named = CursorImageStatus::default_named();
    let updated = update_primary_scanout_output(&all.desktop, &scene(), &None, &named);
    assert_eq!(updated, vec![10, 11, 12, 20]);
    let mut state = state();
    state.dnd_requested(Some(31));
    let cursor = CursorImageStatus::Surface(30);
    let updated = update_primary_scanout_output(&all.desktop, &scene(), &state.dnd_icon, &cursor);
    assert_eq!(updated, vec![10, 11, 12, 20, 30, 31]);
}

#[test]
fn feedback_is_taken_on_the_output() {
    let all = workspaces(0);
    assert_eq!(
        take_presentation_feedback(1, &all.desktop, &scene().layers),
        vec![FrameTarget::Window(50), FrameTarget::Layer(20)]
    );
    assert_eq!(
        take_presentation_feedback(2, &all.desktop, &Vec::new()),
        vec![FrameTarget::Window(51)]
    );
}
