//! What surfaces, windows and clients are told before and after an output is repainted.

use vstd::prelude::*;

use crate::shell::element::CursorImageStatus;
use crate::state::{AnvilState, DndIcon};
use crate::workspace::{SpaceView, SurfaceView, WindowView, Workspaces};
use crate::{ClientId, OutputId, SurfaceId, WindowId};

verus! {

/// Seconds after which a frame is announced to a surface that is not shown.
pub const FRAME_THROTTLE_SECONDS: u64 = 1;

/// A layer surface of an output, such as a panel.
pub struct LayerView {
    pub id: SurfaceId,
    pub tree: Vec<SurfaceView>,
}

/// What an output shows besides the windows of a space.
pub struct Scene {
    pub layers: Vec<LayerView>,
    /// The surfaces of the cursor image, where it is a surface.
    pub cursor_tree: Vec<SurfaceView>,
    /// The surfaces of the drag icon, where there is one.
    pub dnd_tree: Vec<SurfaceView>,
}

/// The surfaces of a list of windows, in order.
pub open spec fn window_surfaces(windows: Seq<WindowView>) -> Seq<SurfaceView>
    decreases windows.len(),
{
    if windows.len() == 0 {
        seq![]
    } else {
        window_surfaces(windows.drop_last()) + windows.last().tree@
    }
}

/// The surfaces of a list of layer surfaces, in order.
pub open spec fn layer_surfaces(layers: Seq<LayerView>) -> Seq<SurfaceView>
    decreases layers.len(),
{
    if layers.len() == 0 {
        seq![]
    } else {
        layer_surfaces(layers.drop_last()) + layers.last().tree@
    }
}

/// The surfaces above the windows: layers, cursor image, drag icon.
pub open spec fn scene_surfaces(
    scene: Scene,
    cursor_status: CursorImageStatus,
    dnd_icon: Option<DndIcon>,
) -> Seq<SurfaceView> {
    layer_surfaces(scene.layers@) + if cursor_status is Surface {
        scene.cursor_tree@
    } else {
        seq![]
    } + if dnd_icon is Some {
        scene.dnd_tree@
    } else {
        seq![]
    }
}

fn append(list: &mut Vec<SurfaceView>, tree: &Vec<SurfaceView>)
    ensures
        final(list)@ == old(list)@ + tree@,
{
    let ghost before = list@;
    let mut i: usize = 0;
    while i < tree.len()
        invariant
            i <= tree@.len(),
            list@ == before + tree@.take(i as int),
        decreases tree.len() - i,
    {
        list.push(tree[i]);
        i = i + 1;
        assert(list@ =~= before + tree@.take(i as int));
    }
    assert(tree@.take(i as int) =~= tree@);
}

fn append_windows(list: &mut Vec<SurfaceView>, windows: &Vec<WindowView>)
    ensures
        final(list)@ == old(list)@ + window_surfaces(windows@),
{
    let ghost before = list@;
    let mut i: usize = 0;
    assert(list@ =~= before + window_surfaces(windows@.take(0)));
    while i < windows.len()
        invariant
            i <= windows@.len(),
            list@ == before + window_surfaces(windows@.take(i as int)),
        decreases windows.len() - i,
    {
        append(list, &windows[i].tree);
        assert(windows@.take(i + 1).drop_last() =~= windows@.take(i as int));
        i = i + 1;
        assert(list@ =~= before + window_surfaces(windows@.take(i as int)));
    }
    assert(windows@.take(i as int) =~= windows@);
}

fn append_scene(
    list: &mut Vec<SurfaceView>,
    scene: &Scene,
    cursor_status: &CursorImageStatus,
    dnd_icon: &Option<DndIcon>,
)
    ensures
        final(list)@ == old(list)@ + scene_surfaces(*scene, *cursor_status, *dnd_icon),
{
    let ghost before = list@;
    let mut i: usize = 0;
    assert(list@ =~= before + layer_surfaces(scene.layers@.take(0)));
    while i < scene.layers.len()
        invariant
            i <= scene.layers@.len(),
            list@ == before + layer_surfaces(scene.layers@.take(i as int)),
        decreases scene.layers.len() - i,
    {
        append(list, &scene.layers[i].tree);
        assert(scene.layers@.take(i + 1).drop_last() =~= scene.layers@.take(i as int));
        i = i + 1;
        assert(list@ =~= before + layer_surfaces(scene.layers@.take(i as int)));
    }
    assert(scene.layers@.take(i as int) =~= scene.layers@);
    if let CursorImageStatus::Surface(_) = cursor_status {
        append(list, &scene.cursor_tree);
    }
    if dnd_icon.is_some() {
        append(list, &scene.dnd_tree);
    }
    assert(list@ =~= before + scene_surfaces(*scene, *cursor_status, *dnd_icon));
}

/// A signal to surfaces whose commits wait.
#[derive(Debug, Clone, Copy, PartialEq, Eq, Structural)]
pub enum Signal {
    /// The time of a frame, to commits that wait for a time.
    Time,
    /// A frame on this output, to commits that wait for a frame.
    Frame(OutputId),
}

impl Signal {
    /// The signal ends the wait of a surface. A frame does so on the output that the surface is
    /// mainly shown on, or on any output if there is none.
    pub open spec fn releases(self, surface: SurfaceView) -> bool {
        match self {
            Signal::Time => surface.commit_timer,
            Signal::Frame(output) => {
                &&& surface.fifo_barrier
                &&& surface.scanout_output is None || surface.scanout_output == Some(output)
            },
        }
    }

    fn is_for(self, surface: &SurfaceView) -> (result: bool)
        ensures
            result == self.releases(*surface),
    {
        match self {
            Signal::Time => surface.commit_timer,
            Signal::Frame(output) => surface.fifo_barrier && match surface.scanout_output {
                Some(shown_on) => shown_on == output,
                None => true,
            },
        }
    }
}

/// The surfaces that a signal releases, in order.
pub open spec fn released(signal: Signal, surfaces: Seq<SurfaceView>) -> Seq<SurfaceId>
    decreases surfaces.len(),
{
    if surfaces.len() == 0 {
        seq![]
    } else {
        let before = released(signal, surfaces.drop_last());
        if signal.releases(surfaces.last()) {
            before.push(surfaces.last().id)
        } else {
            before
        }
    }
}

/// The clients of the surfaces that a signal releases, each one once, in the order in which they
/// first occur.
pub open spec fn released_clients(signal: Signal, surfaces: Seq<SurfaceView>) -> Seq<ClientId>
    decreases surfaces.len(),
{
    if surfaces.len() == 0 {
        seq![]
    } else {
        let before = released_clients(signal, surfaces.drop_last());
        let client = surfaces.last().client;
        if signal.releases(surfaces.last()) && !before.contains(client) {
            before.push(client)
        } else {
            before
        }
    }
}

fn contains(list: &Vec<u64>, id: u64) -> (result: bool)
    ensures
        result == list@.contains(id),
{
    let mut i: usize = 0;
    while i < list.len()
        invariant
            i <= list@.len(),
            forall|j: int| 0 <= j < i ==> list@[j] != id,
        decreases list.len() - i,
    {
        if list[i] == id {
            return true;
        }
        i = i + 1;
    }
    false
}

fn release(signal: Signal, surfaces: &Vec<SurfaceView>) -> (plan: (Vec<SurfaceId>, Vec<ClientId>))
    ensures
        plan.0@ == released(signal, surfaces@),
        plan.1@ == released_clients(signal, surfaces@),
{
    let mut ids: Vec<SurfaceId> = Vec::new();
    let mut clients: Vec<ClientId> = Vec::new();
    let mut i: usize = 0;
    while i < surfaces.len()
        invariant
            i <= surfaces@.len(),
            ids@ == released(signal, surfaces@.take(i as int)),
            clients@ == released_clients(signal, surfaces@.take(i as int)),
        decreases surfaces.len() - i,
    {
        assert(surfaces@.take(i + 1).drop_last() =~= surfaces@.take(i as int));
        if signal.is_for(&surfaces[i]) {
            ids.push(surfaces[i].id);
            if !contains(&clients, surfaces[i].client) {
                clients.push(surfaces[i].client);
            }
        }
        i = i + 1;
    }
    assert(surfaces@.take(i as int) =~= surfaces@);
    (ids, clients)
}

/// What to do before a repaint: signal surfaces, then tell their clients that commits are ready.
pub struct PreRepaint {
    pub signaled: Vec<SurfaceId>,
    pub cleared: Vec<ClientId>,
}

/// Something that frames are announced to.
#[derive(Debug, Clone, Copy, PartialEq, Eq, Structural)]
pub enum FrameTarget {
    Window(WindowId),
    Layer(SurfaceId),
}

/// A step after a repaint.
#[derive(Debug, Clone, Copy, PartialEq, Eq, Structural)]
pub enum RepaintStep {
    /// Tells a surface to use the scale of the output that it is mainly shown on.
    SetPreferredScale { surface: SurfaceId, output: OutputId },
    /// Takes the barrier of a surface and signals it.
    SignalFifo(SurfaceId),
    SendFrame(FrameTarget),
    SendDmabufFeedback(FrameTarget),
}

/// What to do after a repaint: the steps in order, then tell the clients that commits are ready.
pub struct PostRepaint {
    pub steps: Vec<RepaintStep>,
    pub cleared: Vec<ClientId>,
}

/// The steps for a surface after a repaint of an output.
pub open spec fn surface_steps(surface: SurfaceView, output: OutputId) -> Seq<RepaintStep> {
    let scale = match surface.scanout_output {
        Some(shown_on) => seq![
            RepaintStep::SetPreferredScale { surface: surface.id, output: shown_on },
        ],
        None => seq![],
    };
    scale + if Signal::Frame(output).releases(surface) {
        seq![RepaintStep::SignalFifo(surface.id)]
    } else {
        seq![]
    }
}

/// The steps for the surfaces of a tree.
pub open spec fn tree_steps(tree: Seq<SurfaceView>, output: OutputId) -> Seq<RepaintStep>
    decreases tree.len(),
{
    if tree.len() == 0 {
        seq![]
    } else {
        tree_steps(tree.drop_last(), output) + surface_steps(tree.last(), output)
    }
}

/// The announcements of a frame to a window or a layer surface.
pub open spec fn announcements(target: FrameTarget, dmabuf_feedback: bool) -> Seq<RepaintStep> {
    if dmabuf_feedback {
        seq![RepaintStep::SendFrame(target), RepaintStep::SendDmabufFeedback(target)]
    } else {
        seq![RepaintStep::SendFrame(target)]
    }
}

/// The steps for a list of windows. Frames are announced to those that are on the output.
pub open spec fn window_steps(
    windows: Seq<WindowView>,
    output: OutputId,
    dmabuf_feedback: bool,
) -> Seq<RepaintStep>
    decreases windows.len(),
{
    if windows.len() == 0 {
        seq![]
    } else {
        let window = windows.last();
        window_steps(windows.drop_last(), output, dmabuf_feedback) + tree_steps(window.tree@, output)
            + if window.outputs@.contains(output) {
            announcements(FrameTarget::Window(window.id), dmabuf_feedback)
        } else {
            seq![]
        }
    }
}

/// The steps for the layer surfaces of the output.
pub open spec fn layer_steps(layers: Seq<LayerView>, output: OutputId, dmabuf_feedback: bool)
    -> Seq<RepaintStep>
    decreases layers.len(),
{
    if layers.len() == 0 {
        seq![]
    } else {
        let layer = layers.last();
        layer_steps(layers.drop_last(), output, dmabuf_feedback) + tree_steps(layer.tree@, output)
            + announcements(FrameTarget::Layer(layer.id), dmabuf_feedback)
    }
}

fn push_tree_steps(steps: &mut Vec<RepaintStep>, tree: &Vec<SurfaceView>, output: OutputId)
    ensures
        final(steps)@ == old(steps)@ + tree_steps(tree@, output),
{
    let ghost before = steps@;
    let signal = Signal::Frame(output);
    let mut i: usize = 0;
    assert(steps@ =~= before + tree_steps(tree@.take(0), output));
    while i < tree.len()
        invariant
            i <= tree@.len(),
            signal == Signal::Frame(output),
            steps@ == before + tree_steps(tree@.take(i as int), output),
        decreases tree.len() - i,
    {
        let surface = &tree[i];
        if let Some(shown_on) = surface.scanout_output {
            steps.push(RepaintStep::SetPreferredScale { surface: surface.id, output: shown_on });
        }
        if signal.is_for(surface) {
            steps.push(RepaintStep::SignalFifo(surface.id));
        }
        assert(tree@.take(i + 1).drop_last() =~= tree@.take(i as int));
        i = i + 1;
        assert(steps@ =~= before + tree_steps(tree@.take(i as int), output));
    }
    assert(tree@.take(i as int) =~= tree@);
}

fn push_announcements(steps: &mut Vec<RepaintStep>, target: FrameTarget, dmabuf_feedback: bool)
    ensures
        final(steps)@ == old(steps)@ + announcements(target, dmabuf_feedback),
{
    let ghost before = steps@;
    steps.push(RepaintStep::SendFrame(target));
    if dmabuf_feedback {
        steps.push(RepaintStep::SendDmabufFeedback(target));
    }
    assert(steps@ =~= before + announcements(target, dmabuf_feedback));
}

fn push_window_steps(
    steps: &mut Vec<RepaintStep>,
    windows: &Vec<WindowView>,
    output: OutputId,
    dmabuf_feedback: bool,
)
    ensures
        final(steps)@ == old(steps)@ + window_steps(windows@, output, dmabuf_feedback),
{
    let ghost before = steps@;
    let mut i: usize = 0;
    assert(steps@ =~= before + window_steps(windows@.take(0), output, dmabuf_feedback));
    while i < windows.len()
        invariant
            i <= windows@.len(),
            steps@ == before + window_steps(windows@.take(i as int), output, dmabuf_feedback),
        decreases windows.len() - i,
    {
        push_tree_steps(steps, &windows[i].tree, output);
        if contains(&windows[i].outputs, output) {
            push_announcements(steps, FrameTarget::Window(windows[i].id), dmabuf_feedback);
        }
        assert(windows@.take(i + 1).drop_last() =~= windows@.take(i as int));
        i = i + 1;
        assert(steps@ =~= before + window_steps(windows@.take(i as int), output, dmabuf_feedback));
    }
    assert(windows@.take(i as int) =~= windows@);
}

fn push_layer_steps(
    steps: &mut Vec<RepaintStep>,
    layers: &Vec<LayerView>,
    output: OutputId,
    dmabuf_feedback: bool,
)
    ensures
        final(steps)@ == old(steps)@ + layer_steps(layers@, output, dmabuf_feedback),
{
    let ghost before = steps@;
    let mut i: usize = 0;
    assert(steps@ =~= before + layer_steps(layers@.take(0), output, dmabuf_feedback));
    while i < layers.len()
        invariant
            i <= layers@.len(),
            steps@ == before + layer_steps(layers@.take(i as int), output, dmabuf_feedback),
        decreases layers.len() - i,
    {
        push_tree_steps(steps, &layers[i].tree, output);
        push_announcements(steps, FrameTarget::Layer(layers[i].id), dmabuf_feedback);
        assert(layers@.take(i + 1).drop_last() =~= layers@.take(i as int));
        i = i + 1;
        assert(steps@ =~= before + layer_steps(layers@.take(i as int), output, dmabuf_feedback));
    }
    assert(layers@.take(i as int) =~= layers@);
}

impl AnvilState {
    /// The surfaces that a repaint is announced to: those of the desktop, of the active workspace
    /// if that is another one, and of the scene.
    pub open spec fn surfaces_before(self, workspaces: Workspaces, scene: Scene) -> Seq<SurfaceView> {
        window_surfaces(workspaces.desktop.windows@) + match workspaces.active_space_of() {
            Some(space) => window_surfaces(space.windows@),
            None => seq![],
        } + scene_surfaces(scene, self.cursor_status, self.dnd_icon)
    }

    /// Plans what precedes a repaint: commits that wait for the time of the frame are released.
    pub fn pre_repaint(&self, workspaces: &Workspaces, scene: &Scene) -> (plan: PreRepaint)
        ensures
            plan.signaled@ == released(Signal::Time, self.surfaces_before(*workspaces, *scene)),
            plan.cleared@ == released_clients(
                Signal::Time,
                self.surfaces_before(*workspaces, *scene),
            ),
    {
        let mut surfaces: Vec<SurfaceView> = Vec::new();
        append_windows(&mut surfaces, &workspaces.desktop.windows);
        if let Some(space) = workspaces.active_space() {
            append_windows(&mut surfaces, &space.windows);
        }
        append_scene(&mut surfaces, scene, &self.cursor_status, &self.dnd_icon);
        assert(surfaces@ =~= self.surfaces_before(*workspaces, *scene));
        let (signaled, cleared) = release(Signal::Time, &surfaces);
        PreRepaint { signaled, cleared }
    }

    /// The space that is repainted: that of the active workspace, or else the desktop.
    pub open spec fn repainted_space(workspaces: Workspaces) -> SpaceView {
        match workspaces.active_space_of() {
            Some(space) => space,
            None => workspaces.desktop,
        }
    }

    /// The surfaces that may be shown by a repaint.
    pub open spec fn surfaces_after(self, workspaces: Workspaces, scene: Scene) -> Seq<SurfaceView> {
        window_surfaces(AnvilState::repainted_space(workspaces).windows@) + scene_surfaces(
            scene,
            self.cursor_status,
            self.dnd_icon,
        )
    }

    /// The steps after a repaint: windows, layer surfaces, cursor image, drag icon.
    pub open spec fn steps_after(
        self,
        output: OutputId,
        workspaces: Workspaces,
        scene: Scene,
        dmabuf_feedback: bool,
    ) -> Seq<RepaintStep> {
        window_steps(
            AnvilState::repainted_space(workspaces).windows@,
            output,
            dmabuf_feedback,
        ) + layer_steps(scene.layers@, output, dmabuf_feedback) + if self.cursor_status is Surface {
            tree_steps(scene.cursor_tree@, output)
        } else {
            seq![]
        } + if self.dnd_icon is Some {
            tree_steps(scene.dnd_tree@, output)
        } else {
            seq![]
        }
    }

    /// Plans what follows a repaint of an output: surfaces learn their scale, commits that wait for
    /// a frame are released, and frames are announced, with buffer feedback if there is any.
    pub fn post_repaint(
        &self,
        output: OutputId,
        workspaces: &Workspaces,
        scene: &Scene,
        dmabuf_feedback: bool,
    ) -> (plan: PostRepaint)
        ensures
            plan.steps@ == self.steps_after(output, *workspaces, *scene, dmabuf_feedback),
            plan.cleared@ == released_clients(
                Signal::Frame(output),
                self.surfaces_after(*workspaces, *scene),
            ),
    {
        let space = match workspaces.active_space() {
            Some(space) => space,
            None => &workspaces.desktop,
        };
        let mut steps: Vec<RepaintStep> = Vec::new();
        push_window_steps(&mut steps, &space.windows, output, dmabuf_feedback);
        push_layer_steps(&mut steps, &scene.layers, output, dmabuf_feedback);
        if let CursorImageStatus::Surface(_) = self.cursor_status {
            push_tree_steps(&mut steps, &scene.cursor_tree, output);
        }
        if self.dnd_icon.is_some() {
            push_tree_steps(&mut steps, &scene.dnd_tree, output);
        }
        assert(steps@ =~= self.steps_after(output, *workspaces, *scene, dmabuf_feedback));
        let mut surfaces: Vec<SurfaceView> = Vec::new();
        append_windows(&mut surfaces, &space.windows);
        append_scene(&mut surfaces, scene, &self.cursor_status, &self.dnd_icon);
        assert(surfaces@ =~= self.surfaces_after(*workspaces, *scene));
        let (_signaled, cleared) = release(Signal::Frame(output), &surfaces);
        PostRepaint { steps, cleared }
    }
}

/// The identities of a list of surfaces.
pub open spec fn surface_ids(surfaces: Seq<SurfaceView>) -> Seq<SurfaceId> {
    surfaces.map_values(|surface: SurfaceView| surface.id)
}

/// Lists the surfaces whose main output is to be determined again: all that a repaint may show.
pub fn update_primary_scanout_output(
    space: &SpaceView,
    scene: &Scene,
    dnd_icon: &Option<DndIcon>,
    cursor_status: &CursorImageStatus,
) -> (updated: Vec<SurfaceId>)
    ensures
        updated@ == surface_ids(
            window_surfaces(space.windows@) + scene_surfaces(*scene, *cursor_status, *dnd_icon),
        ),
{
    let mut surfaces: Vec<SurfaceView> = Vec::new();
    append_windows(&mut surfaces, &space.windows);
    append_scene(&mut surfaces, scene, cursor_status, dnd_icon);
    let mut updated: Vec<SurfaceId> = Vec::new();
    let mut i: usize = 0;
    while i < surfaces.len()
        invariant
            i <= surfaces@.len(),
            updated@ == surface_ids(surfaces@.take(i as int)),
        decreases surfaces.len() - i,
    {
        updated.push(surfaces[i].id);
        i = i + 1;
        assert(updated@ =~= surface_ids(surfaces@.take(i as int)));
    }
    assert(surfaces@.take(i as int) =~= surfaces@);
    assert(surfaces@ =~= window_surfaces(space.windows@) + scene_surfaces(
        *scene,
        *cursor_status,
        *dnd_icon,
    ));
    updated
}

/// The windows of a list that are on an output.
pub open spec fn windows_on(windows: Seq<WindowView>, output: OutputId) -> Seq<FrameTarget>
    decreases windows.len(),
{
    if windows.len() == 0 {
        seq![]
    } else {
        let before = windows_on(windows.drop_last(), output);
        if windows.last().outputs@.contains(output) {
            before.push(FrameTarget::Window(windows.last().id))
        } else {
            before
        }
    }
}

/// The layer surfaces of a list.
pub open spec fn layer_targets(layers: Seq<LayerView>) -> Seq<FrameTarget> {
    layers.map_values(|layer: LayerView| FrameTarget::Layer(layer.id))
}

/// Lists whose presentation feedback is taken for a frame on an output: windows on the output, then
/// its layer surfaces.
pub fn take_presentation_feedback(output: OutputId, space: &SpaceView, layers: &Vec<LayerView>)
    -> (targets: Vec<FrameTarget>)
    ensures
        targets@ == windows_on(space.windows@, output) + layer_targets(layers@),
{
    let mut targets: Vec<FrameTarget> = Vec::new();
    let windows = &space.windows;
    let mut i: usize = 0;
    while i < windows.len()
        invariant
            i <= windows@.len(),
            targets@ == windows_on(windows@.take(i as int), output),
        decreases windows.len() - i,
    {
        assert(windows@.take(i + 1).drop_last() =~= windows@.take(i as int));
        if contains(&windows[i].outputs, output) {
            targets.push(FrameTarget::Window(windows[i].id));
        }
        i = i + 1;
    }
    assert(windows@.take(i as int) =~= windows@);
    let ghost before = targets@;
    let mut j: usize = 0;
    while j < layers.len()
        invariant
            j <= layers@.len(),
            targets@ == before + layer_targets(layers@.take(j as int)),
        decreases layers.len() - j,
    {
        targets.push(FrameTarget::Layer(layers[j].id));
        j = j + 1;
        assert(targets@ =~= before + layer_targets(layers@.take(j as int)));
    }
    assert(layers@.take(j as int) =~= layers@);
    targets
}

/// A client is told that commits are ready if and only if a surface of it was released, and it is
/// told once.
pub proof fn clients_are_cleared_once(signal: Signal, surfaces: Seq<SurfaceView>, client: ClientId)
    ensures
        released_clients(signal, surfaces).no_duplicates(),
        released_clients(signal, surfaces).contains(client) <==> exists|i: int|
            0 <= i < surfaces.len() && signal.releases(#[trigger] surfaces[i])
                && surfaces[i].client == client,
    decreases surfaces.len(),
{
    if surfaces.len() > 0 {
        let shorter = surfaces.drop_last();
        let before = released_clients(signal, shorter);
        let last = surfaces.last();
        clients_are_cleared_once(signal, shorter, client);
        assert(surfaces[surfaces.len() - 1] == last);
        assert(before.push(last.client).last() == last.client);
        assert forall|c: ClientId| before.push(last.client).contains(c) == (before.contains(c) || c
            == last.client) by {
            let longer = before.push(last.client);
            if before.contains(c) {
                let k = before.index_of(c);
                assert(longer[k] == c);
            }
            if c == last.client {
                assert(longer[before.len() as int] == c);
            }
            if longer.contains(c) {
                let k = longer.index_of(c);
                if k < before.len() {
                    assert(before[k] == c);
                }
            }
        }
        if released_clients(signal, surfaces).contains(client) {
            if before.contains(client) {
                let i = choose|i: int|
                    0 <= i < shorter.len() && signal.releases(#[trigger] shorter[i])
                        && shorter[i].client == client;
                assert(surfaces[i] == shorter[i]);
            }
        }
        if exists|i: int|
            0 <= i < surfaces.len() && signal.releases(#[trigger] surfaces[i])
                && surfaces[i].client == client {
            let i = choose|i: int|
                0 <= i < surfaces.len() && signal.releases(#[trigger] surfaces[i])
                    && surfaces[i].client == client;
            if i < shorter.len() {
                assert(shorter[i] == surfaces[i]);
                assert(before.contains(client));
            }
        }
    }
}

/// The surfaces that a list of steps signals, in order.
pub open spec fn signaled_by(steps: Seq<RepaintStep>) -> Seq<SurfaceId>
    decreases steps.len(),
{
    if steps.len() == 0 {
        seq![]
    } else {
        let before = signaled_by(steps.drop_last());
        match steps.last() {
            RepaintStep::SignalFifo(surface) => before.push(surface),
            _ => before,
        }
    }
}

proof fn signaled_by_both(a: Seq<RepaintStep>, b: Seq<RepaintStep>)
    ensures
        signaled_by(a + b) == signaled_by(a) + signaled_by(b),
    decreases b.len(),
{
    if b.len() == 0 {
        assert(a + b =~= a);
        assert(signaled_by(a) + signaled_by(b) =~= signaled_by(a));
    } else {
        signaled_by_both(a, b.drop_last());
        assert((a + b).drop_last() =~= a + b.drop_last());
        assert((a + b).last() == b.last());
        assert(signaled_by(a + b) =~= signaled_by(a) + signaled_by(b));
    }
}

proof fn released_in_both(signal: Signal, a: Seq<SurfaceView>, b: Seq<SurfaceView>)
    ensures
        released(signal, a + b) == released(signal, a) + released(signal, b),
    decreases b.len(),
{
    if b.len() == 0 {
        assert(a + b =~= a);
        assert(released(signal, a) + released(signal, b) =~= released(signal, a));
    } else {
        released_in_both(signal, a, b.drop_last());
        assert((a + b).drop_last() =~= a + b.drop_last());
        assert((a + b).last() == b.last());
        assert(released(signal, a + b) =~= released(signal, a) + released(signal, b));
    }
}

proof fn trees_are_signaled(tree: Seq<SurfaceView>, output: OutputId)
    ensures
        signaled_by(tree_steps(tree, output)) == released(Signal::Frame(output), tree),
    decreases tree.len(),
{
    if tree.len() > 0 {
        let shorter = tree.drop_last();
        let last = tree.last();
        trees_are_signaled(shorter, output);
        signaled_by_both(tree_steps(shorter, output), surface_steps(last, output));
        reveal_with_fuel(signaled_by, 3);
        let steps = surface_steps(last, output);
        if last.scanout_output is Some && Signal::Frame(output).releases(last) {
            assert(steps.drop_last().drop_last() =~= seq![]);
        }
        assert(signaled_by(steps) =~= if Signal::Frame(output).releases(last) {
            seq![last.id]
        } else {
            seq![]
        });
        assert(signaled_by(tree_steps(tree, output)) =~= released(Signal::Frame(output), tree));
    }
}

proof fn announcements_signal_nothing(target: FrameTarget, dmabuf_feedback: bool)
    ensures
        signaled_by(announcements(target, dmabuf_feedback)) == Seq::<SurfaceId>::empty(),
{
    reveal_with_fuel(signaled_by, 3);
}

proof fn windows_are_signaled(windows: Seq<WindowView>, output: OutputId, dmabuf_feedback: bool)
    ensures
        signaled_by(window_steps(windows, output, dmabuf_feedback)) == released(
            Signal::Frame(output),
            window_surfaces(windows),
        ),
    decreases windows.len(),
{
    if windows.len() > 0 {
        let shorter = windows.drop_last();
        let window = windows.last();
        let first = window_steps(shorter, output, dmabuf_feedback);
        let second = tree_steps(window.tree@, output);
        let third = if window.outputs@.contains(output) {
            announcements(FrameTarget::Window(window.id), dmabuf_feedback)
        } else {
            seq![]
        };
        windows_are_signaled(shorter, output, dmabuf_feedback);
        trees_are_signaled(window.tree@, output);
        announcements_signal_nothing(FrameTarget::Window(window.id), dmabuf_feedback);
        signaled_by_both(first, second);
        signaled_by_both(first + second, third);
        released_in_both(Signal::Frame(output), window_surfaces(shorter), window.tree@);
        assert(signaled_by(first + second + third) =~= signaled_by(first) + signaled_by(second));
    }
}

proof fn layers_are_signaled(layers: Seq<LayerView>, output: OutputId, dmabuf_feedback: bool)
    ensures
        signaled_by(layer_steps(layers, output, dmabuf_feedback)) == released(
            Signal::Frame(output),
            layer_surfaces(layers),
        ),
    decreases layers.len(),
{
    if layers.len() > 0 {
        let shorter = layers.drop_last();
        let layer = layers.last();
        let first = layer_steps(shorter, output, dmabuf_feedback);
        let second = tree_steps(layer.tree@, output);
        let third = announcements(FrameTarget::Layer(layer.id), dmabuf_feedback);
        layers_are_signaled(shorter, output, dmabuf_feedback);
        trees_are_signaled(layer.tree@, output);
        announcements_signal_nothing(FrameTarget::Layer(layer.id), dmabuf_feedback);
        signaled_by_both(first, second);
        signaled_by_both(first + second, third);
        released_in_both(Signal::Frame(output), layer_surfaces(shorter), layer.tree@);
        assert(signaled_by(first + second + third) =~= signaled_by(first) + signaled_by(second));
    }
}

/// After a repaint exactly the surfaces that wait for a frame on the output are signaled, in the
/// order in which they are shown; so the clients that are told that commits are ready are those of
/// the signaled surfaces.
pub proof fn waiting_surfaces_are_signaled(
    state: AnvilState,
    output: OutputId,
    workspaces: Workspaces,
    scene: Scene,
    dmabuf_feedback: bool,
)
    ensures
        signaled_by(state.steps_after(output, workspaces, scene, dmabuf_feedback)) == released(
            Signal::Frame(output),
            state.surfaces_after(workspaces, scene),
        ),
{
    let signal = Signal::Frame(output);
    let windows = AnvilState::repainted_space(workspaces).windows@;
    let cursor = if state.cursor_status is Surface {
        scene.cursor_tree@
    } else {
        seq![]
    };
    let icon = if state.dnd_icon is Some {
        scene.dnd_tree@
    } else {
        seq![]
    };
    let a = window_steps(windows, output, dmabuf_feedback);
    let b = layer_steps(scene.layers@, output, dmabuf_feedback);
    let c = tree_steps(cursor, output);
    let d = tree_steps(icon, output);
    windows_are_signaled(windows, output, dmabuf_feedback);
    layers_are_signaled(scene.layers@, output, dmabuf_feedback);
    trees_are_signaled(cursor, output);
    trees_are_signaled(icon, output);
    signaled_by_both(a, b);
    signaled_by_both(a + b, c);
    signaled_by_both(a + b + c, d);
    let layers = layer_surfaces(scene.layers@);
    released_in_both(signal, layers, cursor);
    released_in_both(signal, layers + cursor, icon);
    released_in_both(signal, window_surfaces(windows), layers + cursor + icon);
    assert(state.steps_after(output, workspaces, scene, dmabuf_feedback) =~= a + b + c + d);
    assert(state.surfaces_after(workspaces, scene) =~= window_surfaces(windows) + (layers + cursor
        + icon));
    assert(signaled_by(a + b + c + d) =~= released(signal, window_surfaces(windows)) + (released(
        signal,
        layers,
    ) + released(signal, cursor) + released(signal, icon)));
}

/// A surface that is mainly shown on one output is not released by frames on another.
pub proof fn frames_stay_on_their_output(surface: SurfaceView, shown_on: OutputId, output: OutputId)
    requires
        surface.scanout_output == Some(shown_on),
        output != shown_on,
    ensures
        !Signal::Frame(output).releases(surface),
        surface_steps(surface, output) == seq![
            RepaintStep::SetPreferredScale { surface: surface.id, output: shown_on },
        ],
{
    assert(surface_steps(surface, output) =~= seq![
        RepaintStep::SetPreferredScale { surface: surface.id, output: shown_on },
    ]);
}

/// What is shown after a repaint was told of it before: no surface is missed.
pub proof fn repaints_are_announced(
    state: AnvilState,
    workspaces: Workspaces,
    scene: Scene,
    surface: SurfaceView,
)
    requires
        state.surfaces_after(workspaces, scene).contains(surface),
    ensures
        state.surfaces_before(workspaces, scene).contains(surface),
{
    let shown = window_surfaces(AnvilState::repainted_space(workspaces).windows@);
    let above = scene_surfaces(scene, state.cursor_status, state.dnd_icon);
    let desktop = window_surfaces(workspaces.desktop.windows@);
    let active = match workspaces.active_space_of() {
        Some(space) => window_surfaces(space.windows@),
        None => seq![],
    };
    let before = state.surfaces_before(workspaces, scene);
    let k = state.surfaces_after(workspaces, scene).index_of(surface);
    if k < shown.len() {
        assert(shown[k] == surface);
        if workspaces.active_space_of() is Some {
            assert(before[desktop.len() + k] == surface);
        } else {
            assert(before[k] == surface);
        }
    } else {
        assert(above[k - shown.len()] == surface);
        assert(before[desktop.len() + active.len() + k - shown.len()] == surface);
    }
}

proof fn holds_both<T>(a: Seq<T>, b: Seq<T>, item: T)
    ensures
        (a + b).contains(item) <==> a.contains(item) || b.contains(item),
{
    let both = a + b;
    if a.contains(item) {
        let k = a.index_of(item);
        assert(both[k] == item);
    }
    if b.contains(item) {
        let k = b.index_of(item);
        assert(both[a.len() + k] == item);
    }
    if both.contains(item) {
        let k = both.index_of(item);
        if k < a.len() {
            assert(a[k] == item);
        } else {
            assert(b[k - a.len()] == item);
        }
    }
}

/// The surface belongs to one of the windows.
pub open spec fn in_windows(windows: Seq<WindowView>, surface: SurfaceView) -> bool {
    exists|w: int| 0 <= w < windows.len() && (#[trigger] windows[w]).tree@.contains(surface)
}

/// The surface belongs to one of the layer surfaces.
pub open spec fn in_layers(layers: Seq<LayerView>, surface: SurfaceView) -> bool {
    exists|l: int| 0 <= l < layers.len() && (#[trigger] layers[l]).tree@.contains(surface)
}

/// The surface belongs to a layer surface, to the cursor image where it is a surface, or to the drag
/// icon where there is one.
pub open spec fn above_windows(state: AnvilState, scene: Scene, surface: SurfaceView) -> bool {
    ||| in_layers(scene.layers@, surface)
    ||| state.cursor_status is Surface && scene.cursor_tree@.contains(surface)
    ||| state.dnd_icon is Some && scene.dnd_tree@.contains(surface)
}

/// These are the windows of the active workspace: the first one that is listed under the active id.
pub open spec fn are_active_windows(workspaces: Workspaces, windows: Seq<WindowView>) -> bool {
    exists|e: int|
        #![trigger workspaces.entries@[e]]
        0 <= e < workspaces.entries@.len() && {
            &&& workspaces.active != 0
            &&& workspaces.entries@[e].id == workspaces.active
            &&& forall|j: int|
                0 <= j < e ==> (#[trigger] workspaces.entries@[j]).id != workspaces.active
            &&& windows == workspaces.entries@[e].space.windows@
        }
}

/// The desktop is active, or no workspace is listed under the active id.
pub open spec fn desktop_is_active(workspaces: Workspaces) -> bool {
    workspaces.active == 0 || forall|e: int|
        0 <= e < workspaces.entries@.len() ==> (#[trigger] workspaces.entries@[e]).id
            != workspaces.active
}

/// These are the windows that a repaint shows: those of the active workspace, or else those of the
/// desktop.
pub open spec fn are_shown_windows(workspaces: Workspaces, windows: Seq<WindowView>) -> bool {
    ||| are_active_windows(workspaces, windows)
    ||| desktop_is_active(workspaces) && windows == workspaces.desktop.windows@
}

proof fn active_space_is_listed(workspaces: Workspaces)
    ensures
        workspaces.active_space_of() matches Some(space) ==> are_active_windows(
            workspaces,
            space.windows@,
        ),
        workspaces.active_space_of() is None <==> desktop_is_active(workspaces),
        forall|windows: Seq<WindowView>| #[trigger]
            are_active_windows(workspaces, windows) ==> workspaces.active_space_of() is Some
                && windows == workspaces.active_space_of()->0.windows@,
{
    let active = workspaces.active;
    crate::utils::first_passes(
        workspaces.entries@,
        |entry: crate::workspace::WorkspaceEntry| entry.id == active,
        0,
    );
}

proof fn window_surfaces_are_held(windows: Seq<WindowView>, surface: SurfaceView)
    ensures
        window_surfaces(windows).contains(surface) <==> in_windows(windows, surface),
    decreases windows.len(),
{
    if windows.len() > 0 {
        let shorter = windows.drop_last();
        window_surfaces_are_held(shorter, surface);
        holds_both(window_surfaces(shorter), windows.last().tree@, surface);
        if in_windows(shorter, surface) {
            let w = choose|w: int|
                0 <= w < shorter.len() && (#[trigger] shorter[w]).tree@.contains(surface);
            assert(windows[w] == shorter[w]);
        }
        if in_windows(windows, surface) {
            let w = choose|w: int|
                0 <= w < windows.len() && (#[trigger] windows[w]).tree@.contains(surface);
            if w < shorter.len() {
                assert(shorter[w] == windows[w]);
            }
        }
        assert(windows[windows.len() - 1] == windows.last());
    }
}

proof fn layer_surfaces_are_held(layers: Seq<LayerView>, surface: SurfaceView)
    ensures
        layer_surfaces(layers).contains(surface) <==> in_layers(layers, surface),
    decreases layers.len(),
{
    if layers.len() > 0 {
        let shorter = layers.drop_last();
        layer_surfaces_are_held(shorter, surface);
        holds_both(layer_surfaces(shorter), layers.last().tree@, surface);
        if in_layers(shorter, surface) {
            let l = choose|l: int|
                0 <= l < shorter.len() && (#[trigger] shorter[l]).tree@.contains(surface);
            assert(layers[l] == shorter[l]);
        }
        if in_layers(layers, surface) {
            let l = choose|l: int|
                0 <= l < layers.len() && (#[trigger] layers[l]).tree@.contains(surface);
            if l < shorter.len() {
                assert(shorter[l] == layers[l]);
            }
        }
        assert(layers[layers.len() - 1] == layers.last());
    }
}

proof fn scene_surfaces_are_held(state: AnvilState, scene: Scene, surface: SurfaceView)
    ensures
        scene_surfaces(scene, state.cursor_status, state.dnd_icon).contains(surface)
            <==> above_windows(state, scene, surface),
{
    let layers = layer_surfaces(scene.layers@);
    let cursor = if state.cursor_status is Surface {
        scene.cursor_tree@
    } else {
        seq![]
    };
    let icon = if state.dnd_icon is Some {
        scene.dnd_tree@
    } else {
        seq![]
    };
    layer_surfaces_are_held(scene.layers@, surface);
    holds_both(layers, cursor, surface);
    holds_both(layers + cursor, icon, surface);
}

proof fn tree_steps_are_held(tree: Seq<SurfaceView>, output: OutputId, step: RepaintStep)
    ensures
        tree_steps(tree, output).contains(step) <==> exists|surface: SurfaceView| #[trigger]
            tree.contains(surface) && surface_steps(surface, output).contains(step),
    decreases tree.len(),
{
    if tree.len() > 0 {
        let shorter = tree.drop_last();
        tree_steps_are_held(shorter, output, step);
        holds_both(tree_steps(shorter, output), surface_steps(tree.last(), output), step);
        assert(tree =~= shorter + seq![tree.last()]);
        assert forall|surface: SurfaceView| #[trigger] tree.contains(surface) <==> shorter.contains(
            surface,
        ) || surface == tree.last() by {
            holds_both(shorter, seq![tree.last()], surface);
            assert(seq![tree.last()][0] == tree.last());
        }
        assert(tree.contains(tree.last()));
        assert(forall|surface: SurfaceView| #[trigger]
            shorter.contains(surface) ==> tree.contains(surface));
    }
}

proof fn window_steps_are_held(
    windows: Seq<WindowView>,
    output: OutputId,
    dmabuf_feedback: bool,
    step: RepaintStep,
)
    ensures
        window_steps(windows, output, dmabuf_feedback).contains(step) <==> exists|w: int|
            0 <= w < windows.len() && {
                let window = #[trigger] windows[w];
                ||| tree_steps(window.tree@, output).contains(step)
                ||| window.outputs@.contains(output) && announcements(
                    FrameTarget::Window(window.id),
                    dmabuf_feedback,
                ).contains(step)
            },
    decreases windows.len(),
{
    if windows.len() > 0 {
        let shorter = windows.drop_last();
        let window = windows.last();
        window_steps_are_held(shorter, output, dmabuf_feedback, step);
        let before = window_steps(shorter, output, dmabuf_feedback);
        let own = tree_steps(window.tree@, output);
        let frame = if window.outputs@.contains(output) {
            announcements(FrameTarget::Window(window.id), dmabuf_feedback)
        } else {
            seq![]
        };
        holds_both(before, own, step);
        holds_both(before + own, frame, step);
        assert(windows[windows.len() - 1] == window);
        assert(forall|w: int| 0 <= w < shorter.len() ==> #[trigger] shorter[w] == windows[w]);
        assert(forall|w: int| 0 <= w < shorter.len() ==> #[trigger] windows[w] == shorter[w]);
    }
}

proof fn layer_steps_are_held(
    layers: Seq<LayerView>,
    output: OutputId,
    dmabuf_feedback: bool,
    step: RepaintStep,
)
    ensures
        layer_steps(layers, output, dmabuf_feedback).contains(step) <==> exists|l: int|
            0 <= l < layers.len() && {
                let layer = #[trigger] layers[l];
                ||| tree_steps(layer.tree@, output).contains(step)
                ||| announcements(FrameTarget::Layer(layer.id), dmabuf_feedback).contains(step)
            },
    decreases layers.len(),
{
    if layers.len() > 0 {
        let shorter = layers.drop_last();
        let layer = layers.last();
        layer_steps_are_held(shorter, output, dmabuf_feedback, step);
        let before = layer_steps(shorter, output, dmabuf_feedback);
        let own = tree_steps(layer.tree@, output);
        let frame = announcements(FrameTarget::Layer(layer.id), dmabuf_feedback);
        holds_both(before, own, step);
        holds_both(before + own, frame, step);
        assert(layers[layers.len() - 1] == layer);
        assert(forall|l: int| 0 <= l < shorter.len() ==> #[trigger] shorter[l] == layers[l]);
        assert(forall|l: int| 0 <= l < shorter.len() ==> #[trigger] layers[l] == shorter[l]);
    }
}

proof fn steps_after_are_held(
    state: AnvilState,
    output: OutputId,
    workspaces: Workspaces,
    scene: Scene,
    dmabuf_feedback: bool,
    step: RepaintStep,
)
    ensures
        state.steps_after(output, workspaces, scene, dmabuf_feedback).contains(step) <==> {
            let windows = AnvilState::repainted_space(workspaces).windows@;
            ||| window_steps(windows, output, dmabuf_feedback).contains(step)
            ||| layer_steps(scene.layers@, output, dmabuf_feedback).contains(step)
            ||| state.cursor_status is Surface && tree_steps(scene.cursor_tree@, output).contains(
                step,
            )
            ||| state.dnd_icon is Some && tree_steps(scene.dnd_tree@, output).contains(step)
        },
{
    let windows = AnvilState::repainted_space(workspaces).windows@;
    let a = window_steps(windows, output, dmabuf_feedback);
    let b = layer_steps(scene.layers@, output, dmabuf_feedback);
    let c = if state.cursor_status is Surface {
        tree_steps(scene.cursor_tree@, output)
    } else {
        seq![]
    };
    let d = if state.dnd_icon is Some {
        tree_steps(scene.dnd_tree@, output)
    } else {
        seq![]
    };
    holds_both(a, b, step);
    holds_both(a + b, c, step);
    holds_both(a + b + c, d, step);
}

/// A step for a surface is planned if and only if it is a step for one of the shown surfaces.
proof fn surface_steps_are_planned(
    state: AnvilState,
    output: OutputId,
    workspaces: Workspaces,
    windows: Seq<WindowView>,
    scene: Scene,
    dmabuf_feedback: bool,
    step: RepaintStep,
)
    requires
        are_shown_windows(workspaces, windows),
        step is SignalFifo || step is SetPreferredScale,
    ensures
        state.steps_after(output, workspaces, scene, dmabuf_feedback).contains(step)
            <==> exists|surface: SurfaceView| #[trigger]
            is_shown(state, windows, scene, surface) && surface_steps(surface, output).contains(
                step,
            ),
{
    active_space_is_listed(workspaces);
    assert(windows == AnvilState::repainted_space(workspaces).windows@);
    steps_after_are_held(state, output, workspaces, scene, dmabuf_feedback, step);
    window_steps_are_held(windows, output, dmabuf_feedback, step);
    layer_steps_are_held(scene.layers@, output, dmabuf_feedback, step);
    tree_steps_are_held(scene.cursor_tree@, output, step);
    tree_steps_are_held(scene.dnd_tree@, output, step);
    assert forall|w: int| 0 <= w < windows.len() implies tree_steps(
        (#[trigger] windows[w]).tree@,
        output,
    ).contains(step) <==> exists|surface: SurfaceView| #[trigger]
        windows[w].tree@.contains(surface) && surface_steps(surface, output).contains(step) by {
        tree_steps_are_held(windows[w].tree@, output, step);
    }
    assert forall|l: int| 0 <= l < scene.layers@.len() implies tree_steps(
        (#[trigger] scene.layers@[l]).tree@,
        output,
    ).contains(step) <==> exists|surface: SurfaceView| #[trigger]
        scene.layers@[l].tree@.contains(surface) && surface_steps(surface, output).contains(
            step,
        ) by {
        tree_steps_are_held(scene.layers@[l].tree@, output, step);
    }
    let steps = state.steps_after(output, workspaces, scene, dmabuf_feedback);
    if steps.contains(step) {
        if window_steps(windows, output, dmabuf_feedback).contains(step) {
            let w = choose|w: int|
                0 <= w < windows.len() && tree_steps(
                    (#[trigger] windows[w]).tree@,
                    output,
                ).contains(step);
            let surface = choose|surface: SurfaceView| #[trigger]
                windows[w].tree@.contains(surface) && surface_steps(surface, output).contains(step);
            assert(in_windows(windows, surface));
            assert(is_shown(state, windows, scene, surface));
        } else if layer_steps(scene.layers@, output, dmabuf_feedback).contains(step) {
            let l = choose|l: int|
                0 <= l < scene.layers@.len() && tree_steps(
                    (#[trigger] scene.layers@[l]).tree@,
                    output,
                ).contains(step);
            let surface = choose|surface: SurfaceView| #[trigger]
                scene.layers@[l].tree@.contains(surface) && surface_steps(
                    surface,
                    output,
                ).contains(step);
            assert(in_layers(scene.layers@, surface));
            assert(is_shown(state, windows, scene, surface));
        } else if state.cursor_status is Surface && tree_steps(
            scene.cursor_tree@,
            output,
        ).contains(step) {
            let surface = choose|surface: SurfaceView| #[trigger]
                scene.cursor_tree@.contains(surface) && surface_steps(surface, output).contains(
                    step,
                );
            assert(is_shown(state, windows, scene, surface));
        } else {
            let surface = choose|surface: SurfaceView| #[trigger]
                scene.dnd_tree@.contains(surface) && surface_steps(surface, output).contains(step);
            assert(is_shown(state, windows, scene, surface));
        }
    }
    if exists|surface: SurfaceView| #[trigger]
        is_shown(state, windows, scene, surface) && surface_steps(surface, output).contains(step) {
        let surface = choose|surface: SurfaceView| #[trigger]
            is_shown(state, windows, scene, surface) && surface_steps(surface, output).contains(
                step,
            );
        if in_windows(windows, surface) {
            let w = choose|w: int|
                0 <= w < windows.len() && (#[trigger] windows[w]).tree@.contains(surface);
            assert(tree_steps(windows[w].tree@, output).contains(step));
        } else if in_layers(scene.layers@, surface) {
            let l = choose|l: int|
                0 <= l < scene.layers@.len() && (#[trigger] scene.layers@[l]).tree@.contains(
                    surface,
                );
            assert(tree_steps(scene.layers@[l].tree@, output).contains(step));
        }
    }
}

/// The surface is shown: in one of the windows, or above them.
pub open spec fn is_shown(
    state: AnvilState,
    windows: Seq<WindowView>,
    scene: Scene,
    surface: SurfaceView,
) -> bool {
    in_windows(windows, surface) || above_windows(state, scene, surface)
}

/// After a repaint of an output, the barrier of a surface is signaled if and only if the surface is
/// shown, has a barrier, and is mainly shown on that output or on none. Commit timers do not matter.
pub proof fn frames_release_barriers(
    state: AnvilState,
    output: OutputId,
    workspaces: Workspaces,
    windows: Seq<WindowView>,
    scene: Scene,
    dmabuf_feedback: bool,
    id: SurfaceId,
)
    requires
        are_shown_windows(workspaces, windows),
    ensures
        state.steps_after(output, workspaces, scene, dmabuf_feedback).contains(
            RepaintStep::SignalFifo(id),
        ) <==> exists|surface: SurfaceView| #[trigger]
            is_shown(state, windows, scene, surface) && surface.id == id && surface.fifo_barrier && (
            surface.scanout_output is None || surface.scanout_output == Some(output)),
{
    let step = RepaintStep::SignalFifo(id);
    surface_steps_are_planned(state, output, workspaces, windows, scene, dmabuf_feedback, step);
    assert forall|surface: SurfaceView|
        #![trigger surface_steps(surface, output)]
        surface_steps(surface, output).contains(step) <==> surface.id == id && surface.fifo_barrier
            && (surface.scanout_output is None || surface.scanout_output == Some(output)) by {
        let steps = surface_steps(surface, output);
        if surface.id == id && surface.fifo_barrier && (surface.scanout_output is None
            || surface.scanout_output == Some(output)) {
            assert(steps.last() == step);
        }
    }
}

/// After a repaint, a surface is told to use the scale of an output if and only if it is shown and
/// that output is the one it is mainly shown on, whichever output was repainted.
pub proof fn surfaces_learn_their_scale(
    state: AnvilState,
    output: OutputId,
    workspaces: Workspaces,
    windows: Seq<WindowView>,
    scene: Scene,
    dmabuf_feedback: bool,
    id: SurfaceId,
    shown_on: OutputId,
)
    requires
        are_shown_windows(workspaces, windows),
    ensures
        state.steps_after(output, workspaces, scene, dmabuf_feedback).contains(
            RepaintStep::SetPreferredScale { surface: id, output: shown_on },
        ) <==> exists|surface: SurfaceView| #[trigger]
            is_shown(state, windows, scene, surface) && surface.id == id && surface.scanout_output
                == Some(shown_on),
{
    let step = RepaintStep::SetPreferredScale { surface: id, output: shown_on };
    surface_steps_are_planned(state, output, workspaces, windows, scene, dmabuf_feedback, step);
    assert forall|surface: SurfaceView|
        #![trigger surface_steps(surface, output)]
        surface_steps(surface, output).contains(step) <==> surface.id == id
            && surface.scanout_output == Some(shown_on) by {
        let steps = surface_steps(surface, output);
        if surface.id == id && surface.scanout_output == Some(shown_on) {
            assert(steps[0] == step);
        }
    }
}

/// After a repaint, frames are announced to the shown windows that are on the output and to the
/// layer surfaces of the output, and to nothing else; with each announcement goes buffer feedback,
/// if there is any.
pub proof fn frames_are_announced(
    state: AnvilState,
    output: OutputId,
    workspaces: Workspaces,
    windows: Seq<WindowView>,
    scene: Scene,
    dmabuf_feedback: bool,
    target: FrameTarget,
)
    requires
        are_shown_windows(workspaces, windows),
    ensures
        state.steps_after(output, workspaces, scene, dmabuf_feedback).contains(
            RepaintStep::SendFrame(target),
        ) <==> match target {
            FrameTarget::Window(id) => exists|w: int|
                0 <= w < windows.len() && (#[trigger] windows[w]).id == id
                    && windows[w].outputs@.contains(output),
            FrameTarget::Layer(id) => exists|l: int|
                0 <= l < scene.layers@.len() && (#[trigger] scene.layers@[l]).id == id,
        },
        state.steps_after(output, workspaces, scene, dmabuf_feedback).contains(
            RepaintStep::SendDmabufFeedback(target),
        ) <==> dmabuf_feedback && state.steps_after(
            output,
            workspaces,
            scene,
            dmabuf_feedback,
        ).contains(RepaintStep::SendFrame(target)),
{
    active_space_is_listed(workspaces);
    assert(windows == AnvilState::repainted_space(workspaces).windows@);
    let frame = RepaintStep::SendFrame(target);
    let feedback = RepaintStep::SendDmabufFeedback(target);
    assert forall|tree: Seq<SurfaceView>, step: RepaintStep|
        #![trigger tree_steps(tree, output).contains(step)]
        step is SendFrame || step is SendDmabufFeedback implies !tree_steps(tree, output).contains(
        step,
    ) by {
        tree_steps_are_held(tree, output, step);
    }
    assert forall|own: FrameTarget|
        #![trigger announcements(own, dmabuf_feedback)]
        (announcements(own, dmabuf_feedback).contains(frame) <==> own == target) && (announcements(
            own,
            dmabuf_feedback,
        ).contains(feedback) <==> own == target && dmabuf_feedback) by {
        let told = announcements(own, dmabuf_feedback);
        assert(told[0] == RepaintStep::SendFrame(own));
        if dmabuf_feedback {
            assert(told[1] == RepaintStep::SendDmabufFeedback(own));
        }
    }
    steps_after_are_held(state, output, workspaces, scene, dmabuf_feedback, frame);
    steps_after_are_held(state, output, workspaces, scene, dmabuf_feedback, feedback);
    window_steps_are_held(windows, output, dmabuf_feedback, frame);
    window_steps_are_held(windows, output, dmabuf_feedback, feedback);
    layer_steps_are_held(scene.layers@, output, dmabuf_feedback, frame);
    layer_steps_are_held(scene.layers@, output, dmabuf_feedback, feedback);
}

/// After a repaint, exactly the clients of signaled surfaces are told that commits are ready, each
/// one once.
pub proof fn frames_clear_clients(
    state: AnvilState,
    output: OutputId,
    workspaces: Workspaces,
    windows: Seq<WindowView>,
    scene: Scene,
    client: ClientId,
)
    requires
        are_shown_windows(workspaces, windows),
    ensures
        ({
            let cleared = released_clients(
                Signal::Frame(output),
                state.surfaces_after(workspaces, scene),
            );
            &&& cleared.no_duplicates()
            &&& cleared.contains(client) <==> exists|surface: SurfaceView| #[trigger]
                is_shown(state, windows, scene, surface) && surface.client == client
                    && surface.fifo_barrier && (surface.scanout_output is None
                    || surface.scanout_output == Some(output))
        }),
{
    let surfaces = state.surfaces_after(workspaces, scene);
    active_space_is_listed(workspaces);
    assert(windows == AnvilState::repainted_space(workspaces).windows@);
    clients_are_cleared_once(Signal::Frame(output), surfaces, client);
    assert forall|surface: SurfaceView| #[trigger] surfaces.contains(surface) <==> is_shown(
        state,
        windows,
        scene,
        surface,
    ) by {
        window_surfaces_are_held(windows, surface);
        scene_surfaces_are_held(state, scene, surface);
        holds_both(
            window_surfaces(windows),
            scene_surfaces(scene, state.cursor_status, state.dnd_icon),
            surface,
        );
    }
    if released_clients(Signal::Frame(output), surfaces).contains(client) {
        let i = choose|i: int|
            0 <= i < surfaces.len() && Signal::Frame(output).releases(#[trigger] surfaces[i])
                && surfaces[i].client == client;
        assert(surfaces.contains(surfaces[i]));
        assert(is_shown(state, windows, scene, surfaces[i]));
    }
    if exists|surface: SurfaceView| #[trigger]
        is_shown(state, windows, scene, surface) && surface.client == client && surface.fifo_barrier
            && (surface.scanout_output is None || surface.scanout_output == Some(output)) {
        let surface = choose|surface: SurfaceView| #[trigger]
            is_shown(state, windows, scene, surface) && surface.client == client
                && surface.fifo_barrier && (surface.scanout_output is None
                || surface.scanout_output == Some(output));
        assert(surfaces.contains(surface));
        let i = surfaces.index_of(surface);
        assert(surfaces[i] == surface);
    }
}

/// The surface is told of a repaint before it: in a window of the desktop, in a window of the active
/// workspace, or above the windows.
pub open spec fn is_told(
    state: AnvilState,
    workspaces: Workspaces,
    scene: Scene,
    surface: SurfaceView,
) -> bool {
    ||| in_windows(workspaces.desktop.windows@, surface)
    ||| exists|windows: Seq<WindowView>| #[trigger]
        are_active_windows(workspaces, windows) && in_windows(windows, surface)
    ||| above_windows(state, scene, surface)
}

proof fn surfaces_before_are_told(
    state: AnvilState,
    workspaces: Workspaces,
    scene: Scene,
    surface: SurfaceView,
)
    ensures
        state.surfaces_before(workspaces, scene).contains(surface) <==> is_told(
            state,
            workspaces,
            scene,
            surface,
        ),
{
    active_space_is_listed(workspaces);
    let desktop = window_surfaces(workspaces.desktop.windows@);
    let active = match workspaces.active_space_of() {
        Some(space) => window_surfaces(space.windows@),
        None => seq![],
    };
    let above = scene_surfaces(scene, state.cursor_status, state.dnd_icon);
    window_surfaces_are_held(workspaces.desktop.windows@, surface);
    if let Some(space) = workspaces.active_space_of() {
        window_surfaces_are_held(space.windows@, surface);
        assert(are_active_windows(workspaces, space.windows@));
    }
    scene_surfaces_are_held(state, scene, surface);
    holds_both(desktop, active, surface);
    holds_both(desktop + active, above, surface);
}

proof fn released_are_held(signal: Signal, surfaces: Seq<SurfaceView>, id: SurfaceId)
    ensures
        released(signal, surfaces).contains(id) <==> exists|surface: SurfaceView| #[trigger]
            surfaces.contains(surface) && surface.id == id && signal.releases(surface),
    decreases surfaces.len(),
{
    if surfaces.len() > 0 {
        let shorter = surfaces.drop_last();
        let last = surfaces.last();
        released_are_held(signal, shorter, id);
        holds_both(released(signal, shorter), seq![last.id], id);
        assert(released(signal, shorter).push(last.id) =~= released(signal, shorter) + seq![
            last.id,
        ]);
        assert(seq![last.id][0] == last.id);
        assert(surfaces =~= shorter + seq![last]);
        assert forall|surface: SurfaceView| #[trigger] surfaces.contains(surface)
            <==> shorter.contains(surface) || surface == last by {
            holds_both(shorter, seq![last], surface);
            assert(seq![last][0] == last);
        }
        assert(surfaces.contains(last));
        assert(forall|surface: SurfaceView| #[trigger]
            shorter.contains(surface) ==> surfaces.contains(surface));
    }
}

/// Before a repaint, the timer of a surface is signaled if and only if the surface is told of the
/// repaint and has a timer. Barriers and outputs do not matter.
pub proof fn times_release_timers(
    state: AnvilState,
    workspaces: Workspaces,
    scene: Scene,
    id: SurfaceId,
)
    ensures
        released(Signal::Time, state.surfaces_before(workspaces, scene)).contains(id)
            <==> exists|surface: SurfaceView| #[trigger]
            is_told(state, workspaces, scene, surface) && surface.id == id && surface.commit_timer,
{
    let surfaces = state.surfaces_before(workspaces, scene);
    released_are_held(Signal::Time, surfaces, id);
    assert forall|surface: SurfaceView| #[trigger] surfaces.contains(surface) <==> is_told(
        state,
        workspaces,
        scene,
        surface,
    ) by {
        surfaces_before_are_told(state, workspaces, scene, surface);
    }
    if exists|surface: SurfaceView| #[trigger]
        is_told(state, workspaces, scene, surface) && surface.id == id && surface.commit_timer {
        let surface = choose|surface: SurfaceView| #[trigger]
            is_told(state, workspaces, scene, surface) && surface.id == id && surface.commit_timer;
        assert(surfaces.contains(surface));
    }
}

/// Before a repaint, exactly the clients of surfaces whose timer is signaled are told that commits
/// are ready, each one once.
pub proof fn times_clear_clients(
    state: AnvilState,
    workspaces: Workspaces,
    scene: Scene,
    client: ClientId,
)
    ensures
        ({
            let cleared = released_clients(
                Signal::Time,
                state.surfaces_before(workspaces, scene),
            );
            &&& cleared.no_duplicates()
            &&& cleared.contains(client) <==> exists|surface: SurfaceView| #[trigger]
                is_told(state, workspaces, scene, surface) && surface.client == client
                    && surface.commit_timer
        }),
{
    let surfaces = state.surfaces_before(workspaces, scene);
    clients_are_cleared_once(Signal::Time, surfaces, client);
    assert forall|surface: SurfaceView| #[trigger] surfaces.contains(surface) <==> is_told(
        state,
        workspaces,
        scene,
        surface,
    ) by {
        surfaces_before_are_told(state, workspaces, scene, surface);
    }
    if released_clients(Signal::Time, surfaces).contains(client) {
        let i = choose|i: int|
            0 <= i < surfaces.len() && Signal::Time.releases(#[trigger] surfaces[i])
                && surfaces[i].client == client;
        assert(surfaces.contains(surfaces[i]));
        assert(is_told(state, workspaces, scene, surfaces[i]));
    }
    if exists|surface: SurfaceView| #[trigger]
        is_told(state, workspaces, scene, surface) && surface.client == client
            && surface.commit_timer {
        let surface = choose|surface: SurfaceView| #[trigger]
            is_told(state, workspaces, scene, surface) && surface.client == client
                && surface.commit_timer;
        assert(surfaces.contains(surface));
        let i = surfaces.index_of(surface);
        assert(surfaces[i] == surface);
    }
}

/// The main output is determined again for exactly the surfaces of the windows of a space and those
/// above them.
pub proof fn shown_surfaces_are_updated(
    state: AnvilState,
    space: SpaceView,
    scene: Scene,
    id: SurfaceId,
)
    ensures
        surface_ids(
            window_surfaces(space.windows@) + scene_surfaces(
                scene,
                state.cursor_status,
                state.dnd_icon,
            ),
        ).contains(id) <==> exists|surface: SurfaceView| #[trigger]
            is_shown(state, space.windows@, scene, surface) && surface.id == id,
{
    let above = scene_surfaces(scene, state.cursor_status, state.dnd_icon);
    let surfaces = window_surfaces(space.windows@) + above;
    let ids = surface_ids(surfaces);
    assert forall|surface: SurfaceView| #[trigger] surfaces.contains(surface) <==> is_shown(
        state,
        space.windows@,
        scene,
        surface,
    ) by {
        window_surfaces_are_held(space.windows@, surface);
        scene_surfaces_are_held(state, scene, surface);
        holds_both(window_surfaces(space.windows@), above, surface);
    }
    if ids.contains(id) {
        let i = ids.index_of(id);
        assert(surfaces.contains(surfaces[i]));
        assert(is_shown(state, space.windows@, scene, surfaces[i]));
    }
    if exists|surface: SurfaceView| #[trigger]
        is_shown(state, space.windows@, scene, surface) && surface.id == id {
        let surface = choose|surface: SurfaceView| #[trigger]
            is_shown(state, space.windows@, scene, surface) && surface.id == id;
        assert(surfaces.contains(surface));
        let i = surfaces.index_of(surface);
        assert(ids[i] == id);
    }
}

/// Presentation feedback is taken for exactly the windows of the space that are on the output, and
/// for the layer surfaces of the output.
pub proof fn feedback_is_for_what_the_output_shows(
    output: OutputId,
    windows: Seq<WindowView>,
    layers: Seq<LayerView>,
    target: FrameTarget,
)
    ensures
        (windows_on(windows, output) + layer_targets(layers)).contains(target) <==> match target {
            FrameTarget::Window(id) => exists|w: int|
                0 <= w < windows.len() && (#[trigger] windows[w]).id == id
                    && windows[w].outputs@.contains(output),
            FrameTarget::Layer(id) => exists|l: int|
                0 <= l < layers.len() && (#[trigger] layers[l]).id == id,
        },
{
    holds_both(windows_on(windows, output), layer_targets(layers), target);
    windows_on_are_held(windows, output, target);
    if let FrameTarget::Layer(id) = target {
        if exists|l: int| 0 <= l < layers.len() && (#[trigger] layers[l]).id == id {
            let l = choose|l: int| 0 <= l < layers.len() && (#[trigger] layers[l]).id == id;
            assert(layer_targets(layers)[l] == target);
        }
    }
}

proof fn windows_on_are_held(windows: Seq<WindowView>, output: OutputId, target: FrameTarget)
    ensures
        windows_on(windows, output).contains(target) <==> exists|w: int|
            0 <= w < windows.len() && FrameTarget::Window((#[trigger] windows[w]).id) == target
                && windows[w].outputs@.contains(output),
    decreases windows.len(),
{
    if windows.len() > 0 {
        let shorter = windows.drop_last();
        let own = FrameTarget::Window(windows.last().id);
        windows_on_are_held(shorter, output, target);
        holds_both(windows_on(shorter, output), seq![own], target);
        assert(windows_on(shorter, output).push(own) =~= windows_on(shorter, output) + seq![own]);
        assert(seq![own][0] == own);
        assert(windows[windows.len() - 1] == windows.last());
        assert(forall|w: int| 0 <= w < shorter.len() ==> #[trigger] shorter[w] == windows[w]);
        assert(forall|w: int| 0 <= w < shorter.len() ==> #[trigger] windows[w] == shorter[w]);
    }
}

/// What is planned for some windows is planned for the first ones and then for the others, in their
/// order; so it is for the surfaces of a tree and for layer surfaces.
pub proof fn steps_keep_the_order(
    windows: Seq<WindowView>,
    more: Seq<WindowView>,
    layers: Seq<LayerView>,
    more_layers: Seq<LayerView>,
    tree: Seq<SurfaceView>,
    more_tree: Seq<SurfaceView>,
    output: OutputId,
    dmabuf_feedback: bool,
)
    ensures
        window_steps(windows + more, output, dmabuf_feedback) == window_steps(
            windows,
            output,
            dmabuf_feedback,
        ) + window_steps(more, output, dmabuf_feedback),
        layer_steps(layers + more_layers, output, dmabuf_feedback) == layer_steps(
            layers,
            output,
            dmabuf_feedback,
        ) + layer_steps(more_layers, output, dmabuf_feedback),
        tree_steps(tree + more_tree, output) == tree_steps(tree, output) + tree_steps(
            more_tree,
            output,
        ),
    decreases more.len() + more_layers.len() + more_tree.len(),
{
    if more.len() > 0 {
        let fewer = more.drop_last();
        steps_keep_the_order(
            windows,
            fewer,
            layers,
            more_layers,
            tree,
            more_tree,
            output,
            dmabuf_feedback,
        );
        assert((windows + more).drop_last() =~= windows + fewer);
        assert(window_steps(windows + more, output, dmabuf_feedback) =~= window_steps(
            windows,
            output,
            dmabuf_feedback,
        ) + window_steps(more, output, dmabuf_feedback));
    } else if more_layers.len() > 0 {
        let fewer = more_layers.drop_last();
        steps_keep_the_order(
            windows,
            more,
            layers,
            fewer,
            tree,
            more_tree,
            output,
            dmabuf_feedback,
        );
        assert((layers + more_layers).drop_last() =~= layers + fewer);
        assert(layer_steps(layers + more_layers, output, dmabuf_feedback) =~= layer_steps(
            layers,
            output,
            dmabuf_feedback,
        ) + layer_steps(more_layers, output, dmabuf_feedback));
    } else if more_tree.len() > 0 {
        let fewer = more_tree.drop_last();
        steps_keep_the_order(
            windows,
            more,
            layers,
            more_layers,
            tree,
            fewer,
            output,
            dmabuf_feedback,
        );
        assert((tree + more_tree).drop_last() =~= tree + fewer);
        assert(tree_steps(tree + more_tree, output) =~= tree_steps(tree, output) + tree_steps(
            more_tree,
            output,
        ));
    } else {
        assert(windows + more =~= windows);
        assert(layers + more_layers =~= layers);
        assert(tree + more_tree =~= tree);
        assert(window_steps(windows, output, dmabuf_feedback) + window_steps(
            more,
            output,
            dmabuf_feedback,
        ) =~= window_steps(windows, output, dmabuf_feedback));
        assert(layer_steps(layers, output, dmabuf_feedback) + layer_steps(
            more_layers,
            output,
            dmabuf_feedback,
        ) =~= layer_steps(layers, output, dmabuf_feedback));
        assert(tree_steps(tree, output) + tree_steps(more_tree, output) =~= tree_steps(
            tree,
            output,
        ));
    }
}

/// The steps for one surface, window or layer surface: a surface is told its scale, then its barrier is
/// signaled; a window or layer surface is told of the frame after its surfaces.
pub proof fn steps_for_one(
    surface: SurfaceView,
    window: WindowView,
    layer: LayerView,
    output: OutputId,
    dmabuf_feedback: bool,
)
    ensures
        ({
            let steps = tree_steps(seq![surface], output);
            let scaled = surface.scanout_output is Some;
            let signaled = surface.fifo_barrier && (surface.scanout_output is None
                || surface.scanout_output == Some(output));
            &&& scaled ==> steps[0] == (RepaintStep::SetPreferredScale {
                surface: surface.id,
                output: surface.scanout_output->0,
            })
            &&& signaled ==> steps.last() == RepaintStep::SignalFifo(surface.id)
            &&& steps.len() == (if scaled {
                1int
            } else {
                0
            }) + (if signaled {
                1int
            } else {
                0
            })
        }),
        ({
            let target = FrameTarget::Window(window.id);
            let steps = window_steps(seq![window], output, dmabuf_feedback);
            let tree = tree_steps(window.tree@, output);
            &&& !window.outputs@.contains(output) ==> steps == tree
            &&& window.outputs@.contains(output) && dmabuf_feedback ==> steps == tree.push(
                RepaintStep::SendFrame(target),
            ).push(RepaintStep::SendDmabufFeedback(target))
            &&& window.outputs@.contains(output) && !dmabuf_feedback ==> steps == tree.push(
                RepaintStep::SendFrame(target),
            )
        }),
        ({
            let target = FrameTarget::Layer(layer.id);
            let steps = layer_steps(seq![layer], output, dmabuf_feedback);
            let tree = tree_steps(layer.tree@, output);
            &&& dmabuf_feedback ==> steps == tree.push(RepaintStep::SendFrame(target)).push(
                RepaintStep::SendDmabufFeedback(target),
            )
            &&& !dmabuf_feedback ==> steps == tree.push(RepaintStep::SendFrame(target))
        }),
{
    reveal_with_fuel(tree_steps, 2);
    reveal_with_fuel(window_steps, 2);
    reveal_with_fuel(layer_steps, 2);
    assert(seq![surface].drop_last() =~= Seq::<SurfaceView>::empty());
    assert(seq![window].drop_last() =~= Seq::<WindowView>::empty());
    assert(seq![layer].drop_last() =~= Seq::<LayerView>::empty());
    let window_target = FrameTarget::Window(window.id);
    let layer_target = FrameTarget::Layer(layer.id);
    let window_tree = tree_steps(window.tree@, output);
    let layer_tree = tree_steps(layer.tree@, output);
    let window_plan = window_steps(seq![window], output, dmabuf_feedback);
    let layer_plan = layer_steps(seq![layer], output, dmabuf_feedback);
    if !window.outputs@.contains(output) {
        assert(window_plan =~= window_tree);
    } else if dmabuf_feedback {
        assert(window_plan =~= window_tree.push(RepaintStep::SendFrame(window_target)).push(
            RepaintStep::SendDmabufFeedback(window_target),
        ));
    } else {
        assert(window_plan =~= window_tree.push(RepaintStep::SendFrame(window_target)));
    }
    if dmabuf_feedback {
        assert(layer_plan =~= layer_tree.push(RepaintStep::SendFrame(layer_target)).push(
            RepaintStep::SendDmabufFeedback(layer_target),
        ));
    } else {
        assert(layer_plan =~= layer_tree.push(RepaintStep::SendFrame(layer_target)));
    }
}

/// A plan goes from the shown windows up: to the layer surfaces, then to the cursor image if it is a
/// surface, then to the drag icon if there is one.
pub proof fn plans_go_from_the_windows_up(
    state: AnvilState,
    output: OutputId,
    workspaces: Workspaces,
    windows: Seq<WindowView>,
    scene: Scene,
    dmabuf_feedback: bool,
)
    requires
        are_shown_windows(workspaces, windows),
    ensures
        ({
            let steps = state.steps_after(output, workspaces, scene, dmabuf_feedback);
            let shown = window_steps(windows, output, dmabuf_feedback) + layer_steps(
                scene.layers@,
                output,
                dmabuf_feedback,
            );
            let cursor = tree_steps(scene.cursor_tree@, output);
            let icon = tree_steps(scene.dnd_tree@, output);
            let has_cursor = state.cursor_status is Surface;
            let has_icon = state.dnd_icon is Some;
            &&& !has_cursor && !has_icon ==> steps == shown
            &&& has_cursor && !has_icon ==> steps == shown + cursor
            &&& !has_cursor && has_icon ==> steps == shown + icon
            &&& has_cursor && has_icon ==> steps == shown + cursor + icon
        }),
{
    active_space_is_listed(workspaces);
    assert(windows == AnvilState::repainted_space(workspaces).windows@);
    let steps = state.steps_after(output, workspaces, scene, dmabuf_feedback);
    let shown = window_steps(windows, output, dmabuf_feedback) + layer_steps(
        scene.layers@,
        output,
        dmabuf_feedback,
    );
    let cursor = tree_steps(scene.cursor_tree@, output);
    let icon = tree_steps(scene.dnd_tree@, output);
    if !(state.cursor_status is Surface) {
        if state.dnd_icon is Some {
            assert(steps =~= shown + icon);
        } else {
            assert(steps =~= shown);
        }
    } else if !(state.dnd_icon is Some) {
        assert(steps =~= shown + cursor);
    }
}

/// Before a repaint, surfaces are signaled from the desktop up: its windows, the windows of the active
/// workspace, the layer surfaces, the cursor image, the drag icon. After a repaint their clients are
/// told in the same order, from the shown windows up.
pub proof fn surfaces_are_told_from_the_desktop_up(
    state: AnvilState,
    workspaces: Workspaces,
    shown: Seq<WindowView>,
    scene: Scene,
)
    requires
        are_shown_windows(workspaces, shown),
    ensures
        ({
            let above = layer_surfaces(scene.layers@) + if state.cursor_status is Surface {
                scene.cursor_tree@
            } else {
                seq![]
            } + if state.dnd_icon is Some {
                scene.dnd_tree@
            } else {
                seq![]
            };
            let desktop = window_surfaces(workspaces.desktop.windows@);
            let before = state.surfaces_before(workspaces, scene);
            &&& desktop_is_active(workspaces) ==> before == desktop + above
            &&& !desktop_is_active(workspaces) ==> before == desktop + window_surfaces(shown) + above
            &&& state.surfaces_after(workspaces, scene) == window_surfaces(shown) + above
        }),
{
    active_space_is_listed(workspaces);
    assert(shown == AnvilState::repainted_space(workspaces).windows@);
    let above = scene_surfaces(scene, state.cursor_status, state.dnd_icon);
    let desktop = window_surfaces(workspaces.desktop.windows@);
    if desktop_is_active(workspaces) {
        assert(state.surfaces_before(workspaces, scene) =~= desktop + above);
    }
}

/// The surfaces of some windows, or of some layer surfaces, come in the order of these. What is signaled
/// of some surfaces comes in the order of the surfaces, and each surface is signaled as often as it
/// is listed.
pub proof fn signals_keep_the_order(
    signal: Signal,
    surfaces: Seq<SurfaceView>,
    more: Seq<SurfaceView>,
    windows: Seq<WindowView>,
    window: WindowView,
    layers: Seq<LayerView>,
    layer: LayerView,
)
    ensures
        released(signal, surfaces + more) == released(signal, surfaces) + released(signal, more),
        window_surfaces(windows.push(window)) == window_surfaces(windows) + window.tree@,
        layer_surfaces(layers.push(layer)) == layer_surfaces(layers) + layer.tree@,
        more.len() == 1 ==> released(Signal::Time, more) == if more[0].commit_timer {
            seq![more[0].id]
        } else {
            seq![]
        },
    decreases more.len(),
{
    assert(windows.push(window).drop_last() =~= windows);
    assert(layers.push(layer).drop_last() =~= layers);
    if more.len() == 0 {
        assert(surfaces + more =~= surfaces);
        assert(released(signal, surfaces) + released(signal, more) =~= released(signal, surfaces));
    } else {
        let fewer = more.drop_last();
        signals_keep_the_order(signal, surfaces, fewer, windows, window, layers, layer);
        assert((surfaces + more).drop_last() =~= surfaces + fewer);
        assert(released(signal, surfaces + more) =~= released(signal, surfaces) + released(
            signal,
            more,
        ));
        if more.len() == 1 {
            reveal_with_fuel(released, 2);
            assert(fewer =~= Seq::<SurfaceView>::empty());
            assert(released(Signal::Time, more) =~= if more[0].commit_timer {
                seq![more[0].id]
            } else {
                seq![]
            });
        }
    }
}

/// The targets of presentation feedback come in the order of the windows, each one once for each time
/// that it is listed, and then in the order of the layer surfaces.
pub proof fn feedback_keeps_the_order(
    windows: Seq<WindowView>,
    window: WindowView,
    layers: Seq<LayerView>,
    output: OutputId,
    l: int,
)
    ensures
        windows_on(windows.push(window), output) == if window.outputs@.contains(output) {
            windows_on(windows, output).push(FrameTarget::Window(window.id))
        } else {
            windows_on(windows, output)
        },
        layer_targets(layers).len() == layers.len(),
        0 <= l < layers.len() ==> layer_targets(layers)[l] == FrameTarget::Layer(layers[l].id),
{
    assert(windows.push(window).drop_last() =~= windows);
}

/// Clients are told in the order in which the first of their surfaces is signaled.
pub proof fn clients_are_told_in_order(
    output: OutputId,
    surfaces: Seq<SurfaceView>,
    surface: SurfaceView,
)
    ensures
        ({
            let earlier = released_clients(Signal::Time, surfaces);
            released_clients(Signal::Time, surfaces.push(surface)) == if surface.commit_timer
                && !earlier.contains(surface.client) {
                earlier.push(surface.client)
            } else {
                earlier
            }
        }),
        ({
            let earlier = released_clients(Signal::Frame(output), surfaces);
            released_clients(Signal::Frame(output), surfaces.push(surface)) == if surface.fifo_barrier
                && (surface.scanout_output is None || surface.scanout_output == Some(output))
                && !earlier.contains(surface.client) {
                earlier.push(surface.client)
            } else {
                earlier
            }
        }),
{
    assert(surfaces.push(surface).drop_last() =~= surfaces);
}

/// The barrier of a shown surface that no other shown one shares its id with is signaled after a
/// repaint of the output that it is mainly shown on, or of any output if there is none, if and only if
/// the surface has a barrier. Its timer does not matter.
pub proof fn barriers_wait_for_frames(
    state: AnvilState,
    output: OutputId,
    workspaces: Workspaces,
    windows: Seq<WindowView>,
    scene: Scene,
    dmabuf_feedback: bool,
    surface: SurfaceView,
)
    requires
        are_shown_windows(workspaces, windows),
        is_shown(state, windows, scene, surface),
        forall|other: SurfaceView| #[trigger]
            is_shown(state, windows, scene, other) && other.id == surface.id ==> other == surface,
        surface.scanout_output is None || surface.scanout_output == Some(output),
    ensures
        state.steps_after(output, workspaces, scene, dmabuf_feedback).contains(
            RepaintStep::SignalFifo(surface.id),
        ) <==> surface.fifo_barrier,
{
    frames_release_barriers(
        state,
        output,
        workspaces,
        windows,
        scene,
        dmabuf_feedback,
        surface.id,
    );
}

/// The timer of a surface that is told of a repaint, and that no other one shares its id with, is
/// signaled before the repaint if and only if the surface has a timer. Its barrier does not matter.
pub proof fn timers_wait_for_times(
    state: AnvilState,
    workspaces: Workspaces,
    scene: Scene,
    surface: SurfaceView,
)
    requires
        is_told(state, workspaces, scene, surface),
        forall|other: SurfaceView| #[trigger]
            is_told(state, workspaces, scene, other) && other.id == surface.id ==> other == surface,
    ensures
        released(Signal::Time, state.surfaces_before(workspaces, scene)).contains(surface.id)
            <==> surface.commit_timer,
{
    times_release_timers(state, workspaces, scene, surface.id);
}

} // verus!
