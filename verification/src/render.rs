//! What is drawn on an output, and where window previews go.

use vstd::prelude::*;

use crate::utils::{in_i32, Point, Rectangle, Size};

verus! {

/// Space around a window preview.
pub const PREVIEW_PADDING: i32 = 10;

/// Most previews in a row.
pub const MAX_PREVIEWS_PER_ROW: usize = 4;

/// The rows and columns that previews are arranged in.
#[derive(Debug, Clone, Copy, PartialEq, Eq, Structural)]
pub struct PreviewGrid {
    pub per_row: usize,
    pub rows: usize,
}

/// The grid for a number of windows: rows of up to four, as many as are needed.
pub open spec fn grid_for(count: nat) -> (nat, nat) {
    let per_row = if count < MAX_PREVIEWS_PER_ROW {
        count
    } else {
        MAX_PREVIEWS_PER_ROW as nat
    };
    (per_row, (count + MAX_PREVIEWS_PER_ROW as nat - 1) as nat / MAX_PREVIEWS_PER_ROW as nat)
}

/// Gives the grid for a number of windows.
pub fn preview_grid(count: usize) -> (grid: PreviewGrid)
    ensures
        (grid.per_row as nat, grid.rows as nat) == grid_for(count as nat),
{
    if count < MAX_PREVIEWS_PER_ROW {
        PreviewGrid {
            per_row: count,
            rows: if count == 0 {
                0
            } else {
                1
            },
        }
    } else {
        PreviewGrid {
            per_row: MAX_PREVIEWS_PER_ROW,
            rows: (count - 1) / MAX_PREVIEWS_PER_ROW + 1,
        }
    }
}

/// Left or top end of the previews at a position of the grid, where a cell has the given extent.
pub open spec fn preview_start(cell: int, position: int) -> int {
    PREVIEW_PADDING + (cell - PREVIEW_PADDING) * position
}

/// Extent of a preview in a cell.
pub open spec fn preview_extent(cell: int) -> int {
    cell - 2 * PREVIEW_PADDING
}

/// The area of the preview with the given index.
pub open spec fn preview_area(cell: Size, per_row: int, index: int) -> Rectangle {
    Rectangle {
        loc: Point {
            x: preview_start(cell.w as int, index % per_row) as i32,
            y: preview_start(cell.h as int, index / per_row) as i32,
        },
        size: Size {
            w: preview_extent(cell.w as int) as i32,
            h: preview_extent(cell.h as int) as i32,
        },
    }
}

/// The previews of a number of windows can be placed: cells have room for more than the padding,
/// and the last ones are on the grid.
pub open spec fn can_be_previewed(count: nat, cell: Size) -> bool {
    let (per_row, rows) = grid_for(count);
    &&& cell.w >= 2 * PREVIEW_PADDING
    &&& cell.h >= 2 * PREVIEW_PADDING
    &&& in_i32(rows as int)
    &&& in_i32(preview_start(cell.w as int, per_row - 1))
    &&& in_i32(preview_start(cell.h as int, rows - 1))
}

proof fn starts_grow(cell: int, position: int, last: int)
    requires
        cell >= PREVIEW_PADDING,
        0 <= position <= last,
    ensures
        PREVIEW_PADDING <= preview_start(cell, position) <= preview_start(cell, last),
        0 <= (cell - PREVIEW_PADDING) * position <= (cell - PREVIEW_PADDING) * last,
{
    assert(0 <= (cell - PREVIEW_PADDING) * position <= (cell - PREVIEW_PADDING) * last)
        by (nonlinear_arith)
        requires
            cell >= PREVIEW_PADDING,
            0 <= position <= last,
    ;
}

/// The place of an index in the grid is one of its rows and columns.
proof fn index_is_on_the_grid(count: nat, index: int)
    requires
        0 <= index < count,
    ensures
        grid_for(count).0 > 0,
        0 <= index % (grid_for(count).0 as int) <= grid_for(count).0 - 1,
        0 <= index / (grid_for(count).0 as int) <= grid_for(count).1 - 1,
{
    let per_row = grid_for(count).0 as int;
    vstd::arithmetic::div_mod::lemma_mod_bound(index, per_row);
    if count < MAX_PREVIEWS_PER_ROW {
        vstd::arithmetic::div_mod::lemma_basic_div(index, per_row);
    } else {
        assert(index / per_row == index / 4) by {
            assert(per_row == 4);
        }
    }
}

/// Gives the areas of window previews, in the order of the windows. `cell` is the size of a cell of
/// the grid: that of the output divided by the numbers of columns and rows, rounded.
pub fn space_preview_elements(count: usize, cell: Size) -> (areas: Vec<Rectangle>)
    requires
        count > 0 ==> can_be_previewed(count as nat, cell),
    ensures
        areas@ == Seq::new(
            count as nat,
            |index: int| preview_area(cell, grid_for(count as nat).0 as int, index),
        ),
{
    let mut areas: Vec<Rectangle> = Vec::new();
    if count == 0 {
        assert(areas@ =~= Seq::new(
            count as nat,
            |index: int| preview_area(cell, grid_for(count as nat).0 as int, index),
        ));
        return areas;
    }
    let grid = preview_grid(count);
    let size = Size { w: cell.w - PREVIEW_PADDING * 2, h: cell.h - PREVIEW_PADDING * 2 };
    let mut index: usize = 0;
    while index < count
        invariant
            index <= count,
            count > 0,
            can_be_previewed(count as nat, cell),
            (grid.per_row as nat, grid.rows as nat) == grid_for(count as nat),
            size.w == preview_extent(cell.w as int),
            size.h == preview_extent(cell.h as int),
            areas@ == Seq::new(
                index as nat,
                |index: int| preview_area(cell, grid_for(count as nat).0 as int, index),
            ),
        decreases count - index,
    {
        proof {
            index_is_on_the_grid(count as nat, index as int);
            starts_grow(
                cell.w as int,
                index as int % grid.per_row as int,
                grid.per_row as int - 1,
            );
            starts_grow(cell.h as int, index as int / grid.per_row as int, grid.rows as int - 1);
        }
        let column: i32 = (index % grid.per_row) as i32;
        let row: i32 = (index / grid.per_row) as i32;
        let loc = Point {
            x: PREVIEW_PADDING + (PREVIEW_PADDING + size.w) * column,
            y: PREVIEW_PADDING + (PREVIEW_PADDING + size.h) * row,
        };
        areas.push(Rectangle::new(loc, size));
        index = index + 1;
        assert(areas@ =~= Seq::new(
            index as nat,
            |index: int| preview_area(cell, grid_for(count as nat).0 as int, index),
        ));
    }
    areas
}

/// Every window has a place of its own: previews do not overlap.
pub proof fn previews_do_not_overlap(count: nat, cell: Size, a: int, b: int)
    requires
        can_be_previewed(count, cell),
        0 <= a < b < count,
    ensures
        preview_area(cell, grid_for(count).0 as int, a).disjoint(
            preview_area(cell, grid_for(count).0 as int, b),
        ),
{
    let (per_row, rows) = grid_for(count);
    index_is_on_the_grid(count, a);
    index_is_on_the_grid(count, b);
    let (w, h) = (cell.w as int, cell.h as int);
    let (column_a, row_a) = (a % per_row as int, a / per_row as int);
    let (column_b, row_b) = (b % per_row as int, b / per_row as int);
    starts_grow(w, column_a, per_row - 1);
    starts_grow(w, column_b, per_row - 1);
    starts_grow(h, row_a, rows - 1);
    starts_grow(h, row_b, rows - 1);
    vstd::arithmetic::div_mod::lemma_fundamental_div_mod(a, per_row as int);
    vstd::arithmetic::div_mod::lemma_fundamental_div_mod(b, per_row as int);
    vstd::arithmetic::div_mod::lemma_div_is_ordered(a, b, per_row as int);
    if row_a < row_b {
        starts_are_apart(h, row_a, row_b);
    } else if column_a < column_b {
        starts_are_apart(w, column_a, column_b);
    } else {
        starts_are_apart(w, column_b, column_a);
    }
}

proof fn starts_are_apart(cell: int, first: int, second: int)
    requires
        cell >= 2 * PREVIEW_PADDING,
        first <= second,
    ensures
        first < second ==> preview_start(cell, first) + preview_extent(cell) + PREVIEW_PADDING
            <= preview_start(cell, second),
{
    if first < second {
        assert((cell - PREVIEW_PADDING) * second >= (cell - PREVIEW_PADDING) * first + (cell
            - PREVIEW_PADDING)) by (nonlinear_arith)
            requires
                cell >= 2 * PREVIEW_PADDING,
                first < second,
        ;
    }
}

/// Previews stay inside their cells taken together, with padding on all sides.
pub proof fn previews_are_inside(count: nat, cell: Size, index: int)
    requires
        can_be_previewed(count, cell),
        0 <= index < count,
    ensures
        ({
            let (per_row, rows) = grid_for(count);
            let area = preview_area(cell, per_row as int, index);
            &&& area.loc.x >= PREVIEW_PADDING
            &&& area.loc.y >= PREVIEW_PADDING
            &&& area.right() <= per_row * cell.w - PREVIEW_PADDING
            &&& area.bottom() <= rows * cell.h - PREVIEW_PADDING
        }),
{
    let (per_row, rows) = grid_for(count);
    index_is_on_the_grid(count, index);
    starts_grow(cell.w as int, index % per_row as int, per_row - 1);
    starts_grow(cell.h as int, index / per_row as int, rows - 1);
    last_preview_ends(cell.w as int, per_row as int);
    last_preview_ends(cell.h as int, rows as int);
}

proof fn last_preview_ends(cell: int, cells: int)
    requires
        cell >= 2 * PREVIEW_PADDING,
        cells >= 1,
    ensures
        preview_start(cell, cells - 1) + preview_extent(cell) <= cells * cell - PREVIEW_PADDING,
{
    assert((cell - PREVIEW_PADDING) * (cells - 1) == cells * cell - cell - PREVIEW_PADDING * cells
        + PREVIEW_PADDING) by (nonlinear_arith);
    assert(PREVIEW_PADDING * cells >= PREVIEW_PADDING) by (nonlinear_arith)
        requires
            cells >= 1,
    ;
}

/// The background of an output.
#[derive(Debug, Clone, Copy, PartialEq, Eq, Structural)]
pub enum ClearColor {
    Desktop,
    Fullscreen,
}

/// A part of what is drawn on an output.
#[derive(Debug, Clone, Copy, PartialEq, Eq, Structural)]
pub enum OutputLayer {
    /// Pointers, snap preview and the like.
    Custom,
    /// The fullscreen window, with its top-left corner here.
    Fullscreen(Point),
    Previews,
    /// The windows and layer surfaces of the space.
    Space,
}

/// What is drawn on an output, the topmost first, and its background.
pub open spec fn output_layers(
    fullscreen_zone: Option<Rectangle>,
    windows: nat,
    show_window_preview: bool,
) -> (Seq<OutputLayer>, ClearColor) {
    match fullscreen_zone {
        Some(zone) => (
            seq![OutputLayer::Custom, OutputLayer::Fullscreen(zone.loc)],
            ClearColor::Fullscreen,
        ),
        None => (
            if show_window_preview && windows > 0 {
                seq![OutputLayer::Custom, OutputLayer::Previews, OutputLayer::Space]
            } else {
                seq![OutputLayer::Custom, OutputLayer::Space]
            },
            ClearColor::Desktop,
        ),
    }
}

/// Lists what is drawn on an output. `fullscreen_zone` is the area for the fullscreen window, if
/// there is one, `windows` the number of windows on the output.
pub fn output_elements(
    fullscreen_zone: Option<Rectangle>,
    windows: usize,
    show_window_preview: bool,
) -> (drawn: (Vec<OutputLayer>, ClearColor))
    ensures
        (drawn.0@, drawn.1) == output_layers(fullscreen_zone, windows as nat, show_window_preview),
{
    let mut layers: Vec<OutputLayer> = Vec::new();
    layers.push(OutputLayer::Custom);
    if let Some(zone) = fullscreen_zone {
        layers.push(OutputLayer::Fullscreen(zone.loc));
        assert(layers@ =~= seq![OutputLayer::Custom, OutputLayer::Fullscreen(zone.loc)]);
        (layers, ClearColor::Fullscreen)
    } else {
        if show_window_preview && windows > 0 {
            layers.push(OutputLayer::Previews);
        }
        layers.push(OutputLayer::Space);
        assert(layers@ =~= output_layers(
            fullscreen_zone,
            windows as nat,
            show_window_preview,
        ).0);
        (layers, ClearColor::Desktop)
    }
}

/// A fullscreen window is all there is below the pointer: neither other windows nor previews are
/// drawn.
pub proof fn fullscreen_hides_the_rest(zone: Rectangle, windows: nat, show_window_preview: bool)
    ensures
        ({
            let (layers, color) = output_layers(Some(zone), windows, show_window_preview);
            &&& !layers.contains(OutputLayer::Space)
            &&& !layers.contains(OutputLayer::Previews)
            &&& layers.first() == OutputLayer::Custom
        }),
{
}

/// The sizes to fit into each other when one output shows what another shows.
#[derive(Debug, Clone, Copy, PartialEq, Eq, Structural)]
pub struct CloneSizes {
    pub source: Size,
    pub target: Size,
}

/// The sizes that a clone fits, if both outputs have a mode with an extent.
pub open spec fn clone_sizes(source: Option<Size>, target: Option<Size>) -> Option<CloneSizes> {
    match (source, target) {
        (Some(source), Some(target)) => if source.w != 0 && source.h != 0 && target.w != 0
            && target.h != 0 {
            Some(CloneSizes { source, target })
        } else {
            None
        },
        _ => None,
    }
}

/// Decides if the elements of a source output are cloned to a target output, and with what sizes.
pub fn clone_space_elements(source: Option<Size>, target: Option<Size>) -> (sizes: Option<CloneSizes>)
    ensures
        sizes == clone_sizes(source, target),
{
    let source = match source {
        Some(size) => size,
        None => Size { w: 0, h: 0 },
    };
    let target = match target {
        Some(size) => size,
        None => Size { w: 0, h: 0 },
    };
    if source.w == 0 || source.h == 0 || target.w == 0 || target.h == 0 {
        return None;
    }
    Some(CloneSizes { source, target })
}

/// What is drawn of a workspace that is shown on another output: its cursor on top, its surfaces
/// underneath.
#[derive(Debug, Clone, Copy, PartialEq, Eq, Structural)]
pub struct Presentation {
    /// Top-left corner of the cursor image.
    pub cursor: Point,
    pub surfaces: Option<CloneSizes>,
}

/// Plans how a workspace is shown on another output. `pointer` is where its pointer is, rounded to
/// whole pixels, `hotspot` the distance of the hotspot from the corner of the cursor image.
pub fn present_ai_elements(
    pointer: Point,
    hotspot: i32,
    source: Option<Size>,
    target: Option<Size>,
) -> (presentation: Presentation)
    requires
        in_i32(pointer.x - hotspot),
        in_i32(pointer.y - hotspot),
    ensures
        presentation.cursor.x == pointer.x - hotspot,
        presentation.cursor.y == pointer.y - hotspot,
        presentation.surfaces == clone_sizes(source, target),
{
    Presentation {
        cursor: Point { x: pointer.x - hotspot, y: pointer.y - hotspot },
        surfaces: clone_space_elements(source, target),
    }
}

/// A part of what is drawn of a workspace that is shown on another output.
#[derive(Debug, Clone, Copy, PartialEq, Eq, Structural)]
pub enum PresentedLayer {
    /// The cursor image, with its top-left corner here.
    Cursor(Point),
    /// The surfaces of the workspace, fitted from one size into the other.
    Clones(CloneSizes),
}

/// What is drawn of a workspace that is shown on another output, the topmost first: the cursor, if
/// its image could be uploaded, then the surfaces, if they can be cloned.
pub open spec fn presented(uploaded: bool, plan: Presentation) -> Seq<PresentedLayer> {
    (if uploaded {
        seq![PresentedLayer::Cursor(plan.cursor)]
    } else {
        seq![]
    }) + match plan.surfaces {
        Some(sizes) => seq![PresentedLayer::Clones(sizes)],
        None => seq![],
    }
}

/// Lists what is drawn of a workspace that is shown on another output, the topmost first.
/// `uploaded` is whether the cursor image could be uploaded.
pub fn presented_layers(uploaded: bool, plan: Presentation) -> (layers: Vec<PresentedLayer>)
    ensures
        layers@ == presented(uploaded, plan),
{
    let mut layers: Vec<PresentedLayer> = Vec::new();
    if uploaded {
        layers.push(PresentedLayer::Cursor(plan.cursor));
    }
    if let Some(sizes) = plan.surfaces {
        layers.push(PresentedLayer::Clones(sizes));
    }
    assert(layers@ =~= presented(uploaded, plan));
    layers
}

/// The cursor is on top of all surfaces, at its place, and there is one of it.
pub proof fn presented_cursors_are_on_top(plan: Presentation)
    ensures
        presented(true, plan).first() == PresentedLayer::Cursor(plan.cursor),
        forall|i: int|
            1 <= i < presented(true, plan).len() ==> #[trigger] presented(true, plan)[i] is Clones,
{
}

/// A cursor image that could not be uploaded drops the cursor alone: what is below it is drawn all
/// the same.
pub proof fn failed_uploads_drop_the_cursor_alone(plan: Presentation)
    ensures
        presented(false, plan) == presented(true, plan).skip(1),
{
    assert(presented(false, plan) =~= presented(true, plan).skip(1));
}

/// The grid is as wide as there are windows, up to four, and has just as many rows as they need.
pub proof fn grids_hold_all_windows(count: nat)
    ensures
        ({
            let (per_row, rows) = grid_for(count);
            &&& count <= 4 ==> per_row == count
            &&& count >= 4 ==> per_row == 4
            &&& per_row * rows >= count
            &&& count > 0 ==> per_row * (rows - 1) < count
            &&& count == 0 ==> rows == 0
        }),
{
    let (per_row, rows) = grid_for(count);
    if count < 4 {
        assert(count == 0 || count == 1 || count == 2 || count == 3);
        if count > 0 {
            assert(rows == 1);
            assert(per_row * 1 == per_row && per_row * 0 == 0);
        } else {
            assert(per_row * rows == 0) by (nonlinear_arith)
                requires
                    per_row == 0,
            ;
        }
    }
}

/// Previews fill the grid row by row: the first one is at the padding, the next one in a row is one
/// cell without its padding to the right, and the one below is one cell without its padding down. All
/// of them are as large as a cell without padding on both sides.
pub proof fn previews_fill_the_grid(count: nat, cell: Size, index: int)
    requires
        can_be_previewed(count, cell),
        0 <= index < count,
    ensures
        ({
            let per_row = grid_for(count).0 as int;
            let area = preview_area(cell, per_row, index);
            let next = preview_area(cell, per_row, index + 1);
            let below = preview_area(cell, per_row, index + per_row);
            &&& area.size.w == cell.w - 20
            &&& area.size.h == cell.h - 20
            &&& index % per_row == 0 ==> area.loc.x == 10
            &&& index < per_row ==> area.loc.y == 10
            &&& index + 1 < count && (index + 1) % per_row != 0 ==> next.loc.x == area.loc.x + cell.w
                - 10 && next.loc.y == area.loc.y
            &&& index + per_row < count ==> below.loc.x == area.loc.x && below.loc.y == area.loc.y
                + cell.h - 10
        }),
{
    let (per_row, rows) = grid_for(count);
    let n = per_row as int;
    let (w, h) = (cell.w as int, cell.h as int);
    index_is_on_the_grid(count, index);
    let (column, row) = (index % n, index / n);
    starts_grow(w, column, n - 1);
    starts_grow(h, row, rows - 1);
    vstd::arithmetic::div_mod::lemma_fundamental_div_mod(index, n);
    assert(n * row == row * n && n * (row + 1) == (row + 1) * n) by (nonlinear_arith);
    if index % n == 0 {
        assert((w - PREVIEW_PADDING) * column == 0) by (nonlinear_arith)
            requires
                column == 0,
        ;
    }
    if index < n {
        vstd::arithmetic::div_mod::lemma_basic_div(index, n);
        assert((h - PREVIEW_PADDING) * row == 0) by (nonlinear_arith)
            requires
                row == 0,
        ;
    }
    if index + 1 < count && (index + 1) % n != 0 {
        index_is_on_the_grid(count, index + 1);
        if column == n - 1 {
            assert(n * row + n == n * (row + 1)) by (nonlinear_arith);
            vstd::arithmetic::div_mod::lemma_fundamental_div_mod_converse(
                index + 1,
                n,
                row + 1,
                0,
            );
        } else {
            vstd::arithmetic::div_mod::lemma_fundamental_div_mod_converse(
                index + 1,
                n,
                row,
                column + 1,
            );
        }
        starts_grow(w, column + 1, n - 1);
        assert((w - PREVIEW_PADDING) * (column + 1) == (w - PREVIEW_PADDING) * column + (w
            - PREVIEW_PADDING)) by (nonlinear_arith);
    }
    if index + n < count {
        index_is_on_the_grid(count, index + n);
        assert(n * (row + 1) + column == index + n) by (nonlinear_arith)
            requires
                index == n * row + column,
        ;
        vstd::arithmetic::div_mod::lemma_fundamental_div_mod_converse(
            index + n,
            n,
            row + 1,
            column,
        );
        starts_grow(h, row + 1, rows - 1);
        assert((h - PREVIEW_PADDING) * (row + 1) == (h - PREVIEW_PADDING) * row + (h
            - PREVIEW_PADDING)) by (nonlinear_arith);
    }
}

/// Without a fullscreen window the space is drawn at the bottom; previews are drawn above it if and
/// only if they are asked for and there is a window. A fullscreen window is drawn at the corner of its
/// area, on its own background. Pointers are always on top.
pub proof fn outputs_are_drawn_in_layers(zone: Rectangle, windows: nat, show_window_preview: bool)
    ensures
        ({
            let (layers, color) = output_layers(None, windows, show_window_preview);
            let previews = show_window_preview && windows > 0;
            &&& layers[0] == OutputLayer::Custom
            &&& layers.last() == OutputLayer::Space
            &&& layers.len() == if previews {
                3int
            } else {
                2
            }
            &&& previews ==> layers[1] == OutputLayer::Previews
            &&& color == ClearColor::Desktop
        }),
        ({
            let (layers, color) = output_layers(Some(zone), windows, show_window_preview);
            &&& layers.len() == 2
            &&& layers[0] == OutputLayer::Custom
            &&& layers[1] == OutputLayer::Fullscreen(zone.loc)
            &&& color == ClearColor::Fullscreen
        }),
{
}

/// An output is cloned if and only if both outputs have a mode in which neither side is zero, and it is
/// fitted from the size of the one into the size of the other.
pub proof fn clones_need_two_extents(source: Option<Size>, target: Option<Size>)
    ensures
        clone_sizes(source, target) is Some <==> {
            &&& source matches Some(from) && from.w != 0 && from.h != 0
            &&& target matches Some(to) && to.w != 0 && to.h != 0
        },
        clone_sizes(source, target) matches Some(sizes) ==> Some(sizes.source) == source && Some(
            sizes.target,
        ) == target,
{
}

} // verus!
