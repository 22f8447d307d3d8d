//! Pointer input on behalf of commands.
//!
//! Motions, buttons and scrolling are emitted without a frame event; [`pointer_frame`] emits it, so
//! that several of them can make up one frame.

use vstd::prelude::*;

use crate::shell::element::{ButtonState, PointerFocusTarget, WindowElement};
use crate::shell::ssd::HEADER_BAR_HEIGHT;
use crate::shell::WindowSurface;
use crate::text::same;
use crate::utils::{in_i32, Coord, Point, Position, Rectangle};
use crate::{SurfaceId, WindowId};

verus! {

/// What is under a point.
#[derive(Debug, Clone, Copy, PartialEq, Eq, Structural)]
pub struct Hit {
    pub target: PointerFocusTarget,
    /// The point as the target sees it: relative to its origin.
    pub local: Position,
    /// The origin of the target on the space.
    pub origin: Point,
}

/// What is under a point, if anything is.
pub type HitTestResult = Option<Hit>;

/// A point of a space as something with its origin there sees it.
pub open spec fn local_to(pos: Position, origin: Point) -> Position {
    Position { x: pos.x.seen_from(origin.x as int), y: pos.y.seen_from(origin.y as int) }
}

/// A point of a space as a window at `loc` sees it.
pub fn window_location(pos: Position, loc: Point) -> (inner: Position)
    ensures
        inner == local_to(pos, loc),
{
    Position { x: pos.x.minus(loc.x), y: pos.y.minus(loc.y) }
}

/// What is at a point of a space, where a window at `loc` is the topmost one.
pub open spec fn under_pointer(
    window: WindowElement,
    pos: Position,
    loc: Point,
    client_hit: Option<(SurfaceId, Point)>,
    inner_geo: Rectangle,
) -> HitTestResult {
    match window.target_under(local_to(pos, loc), client_hit, inner_geo.size) {
        Some(under) => {
            let origin = under.1.moved(loc);
            Some(Hit { target: under.0, local: local_to(pos, origin), origin })
        },
        None => None,
    }
}

/// Finds what is at a point of a space, and where in it the point is. `window` is the topmost window there, with its place;
/// `client_hit` is what its client has at the point, `inner_geo` the geometry of the client.
pub fn hit_test(
    window: Option<(&WindowElement, Point)>,
    pos: Position,
    client_hit: Option<(SurfaceId, Point)>,
    inner_geo: Rectangle,
) -> (under: HitTestResult)
    requires
        window matches Some((element, loc)) ==> element.decorations.is_ssd ==> in_i32(
            HEADER_BAR_HEIGHT + inner_geo.size.h,
        ),
    ensures
        under == match window {
            Some((element, loc)) => under_pointer(*element, pos, loc, client_hit, inner_geo),
            None => None,
        },
{
    match window {
        Some((element, loc)) => {
            let inner = window_location(pos, loc);
            match element.surface_under(inner, client_hit, inner_geo) {
                Some((target, place)) => {
                    let origin = place.plus(loc);
                    Some(Hit { target, local: window_location(pos, origin), origin })
                },
                None => None,
            }
        },
        None => None,
    }
}

/// The axis of a scroll.
#[derive(Debug, Clone, Copy, PartialEq, Eq, Structural)]
pub enum Axis {
    Horizontal,
    Vertical,
}

/// An event that is emitted for a command.
#[derive(Debug, Clone, Copy, PartialEq, Eq)]
pub enum PointerStep {
    /// Moves the pointer to a point of the space, with the focus on what is there.
    Motion { focus: HitTestResult, location: Position },
    Button { code: u32, state: ButtonState },
    /// Gives the keyboard focus to a window.
    FocusKeyboard(WindowId),
    Scroll { axis: Axis, amount: i64 },
    /// Ends a group of pointer events.
    Frame,
}

/// Moves the pointer to a point. `under` is what is there.
pub fn do_pointer_motion(pos: Position, under: HitTestResult) -> (steps: Vec<PointerStep>)
    ensures
        steps@ == seq![PointerStep::Motion { focus: under, location: pos }],
{
    let steps = vec![PointerStep::Motion { focus: under, location: pos }];
    assert(steps@ =~= seq![PointerStep::Motion { focus: under, location: pos }]);
    steps
}

/// The number of a button, as Linux numbers it. Unknown names mean the left button.
pub open spec fn button_code(button: Seq<char>) -> u32 {
    if button == "right"@ {
        0x111
    } else if button == "middle"@ {
        0x112
    } else {
        0x110
    }
}

fn code_for(button: &str) -> (code: u32)
    ensures
        code == button_code(button@),
{
    if same(button, "right") {
        0x111
    } else if same(button, "middle") {
        0x112
    } else {
        0x110
    }
}

/// The events of a button: a motion to the point, the button, and for a press the keyboard focus.
/// A release does not shift any focus, so it goes to the window that got the press.
pub open spec fn button_steps(
    pos: Position,
    under: HitTestResult,
    window: Option<WindowId>,
    has_keyboard: bool,
    button: Seq<char>,
    pressed: bool,
) -> Seq<PointerStep> {
    if pressed {
        seq![
            PointerStep::Motion { focus: under, location: pos },
            PointerStep::Button { code: button_code(button), state: ButtonState::Pressed },
        ] + match window {
            Some(id) if has_keyboard => seq![PointerStep::FocusKeyboard(id)],
            _ => seq![],
        }
    } else {
        seq![
            PointerStep::Motion { focus: None, location: pos },
            PointerStep::Button { code: button_code(button), state: ButtonState::Released },
        ]
    }
}

/// Presses or releases a button at a point. `under` is what is there, `window` the topmost window
/// there, `has_keyboard` whether the seat has a keyboard.
pub fn do_pointer_button(
    pos: Position,
    under: HitTestResult,
    window: Option<WindowId>,
    has_keyboard: bool,
    button: &str,
    pressed: bool,
) -> (steps: Vec<PointerStep>)
    ensures
        steps@ == button_steps(pos, under, window, has_keyboard, button@, pressed),
{
    let mut steps: Vec<PointerStep> = Vec::new();
    let focus = if pressed {
        under
    } else {
        None
    };
    steps.push(PointerStep::Motion { focus, location: pos });
    let code: u32 = code_for(button);
    let state = if pressed {
        ButtonState::Pressed
    } else {
        ButtonState::Released
    };
    steps.push(PointerStep::Button { code, state });
    if pressed {
        if let Some(id) = window {
            if has_keyboard {
                steps.push(PointerStep::FocusKeyboard(id));
            }
        }
    }
    assert(steps@ =~= button_steps(pos, under, window, has_keyboard, button@, pressed));
    steps
}

/// How far a scroll step goes.
pub const SCROLL_STEP: i64 = 15;

/// The scroll for a direction: down and right are positive. There is none for other directions.
pub open spec fn scroll_for(direction: Seq<char>, amount: i32) -> Option<(Axis, int)> {
    if direction == "down"@ {
        Some((Axis::Vertical, amount * SCROLL_STEP))
    } else if direction == "up"@ {
        Some((Axis::Vertical, -(amount * SCROLL_STEP)))
    } else if direction == "right"@ {
        Some((Axis::Horizontal, amount * SCROLL_STEP))
    } else if direction == "left"@ {
        Some((Axis::Horizontal, -(amount * SCROLL_STEP)))
    } else {
        None
    }
}

/// Scrolls. An unknown direction does nothing.
pub fn do_pointer_axis(direction: &str, amount: i32) -> (steps: Vec<PointerStep>)
    ensures
        steps@ == match scroll_for(direction@, amount) {
            Some((axis, value)) => seq![PointerStep::Scroll { axis, amount: value as i64 }],
            None => seq![],
        },
{
    let value: i64 = amount as i64 * SCROLL_STEP;
    let (axis, amount): (Axis, i64) = if same(direction, "down") {
        (Axis::Vertical, value)
    } else if same(direction, "up") {
        (Axis::Vertical, -value)
    } else if same(direction, "right") {
        (Axis::Horizontal, value)
    } else if same(direction, "left") {
        (Axis::Horizontal, -value)
    } else {
        return Vec::new();
    };
    let steps = vec![PointerStep::Scroll { axis, amount }];
    assert(steps@ =~= seq![PointerStep::Scroll { axis, amount }]);
    steps
}

/// Ends a group of pointer events.
pub fn pointer_frame() -> (steps: Vec<PointerStep>)
    ensures
        steps@ == seq![PointerStep::Frame],
{
    let steps = vec![PointerStep::Frame];
    assert(steps@ =~= seq![PointerStep::Frame]);
    steps
}

/// The coordinate seen from `origin` is a pixel in range.
pub open spec fn is_seen(coord: Coord, origin: int) -> bool {
    match coord {
        Coord::Whole(n) => i64::MIN <= n - origin <= i64::MAX,
        Coord::Between(n) => i64::MIN <= n - origin <= i64::MAX,
        Coord::Undefined => false,
    }
}

/// The origin of what is hit and the place in it add up to the point.
pub proof fn hits_add_up(
    window: WindowElement,
    pos: Position,
    loc: Point,
    client_hit: Option<(SurfaceId, Point)>,
    inner_geo: Rectangle,
)
    requires
        under_pointer(window, pos, loc, client_hit, inner_geo) matches Some(hit) ==> {
            &&& is_seen(pos.x, hit.origin.x as int)
            &&& is_seen(pos.y, hit.origin.y as int)
        },
    ensures
        under_pointer(window, pos, loc, client_hit, inner_geo) matches Some(hit) ==> {
            &&& hit.local.x.halves() + 2 * hit.origin.x == pos.x.halves()
            &&& hit.local.y.halves() + 2 * hit.origin.y == pos.y.halves()
            &&& hit.local.x is Whole <==> pos.x is Whole
            &&& hit.local.y is Whole <==> pos.y is Whole
        },
{
}

/// A button never emits a frame event, and goes to the pointer before the keyboard focus shifts.
pub proof fn buttons_do_not_frame(
    pos: Position,
    under: HitTestResult,
    window: Option<WindowId>,
    has_keyboard: bool,
    button: Seq<char>,
    pressed: bool,
)
    ensures
        ({
            let steps = button_steps(pos, under, window, has_keyboard, button, pressed);
            &&& !steps.contains(PointerStep::Frame)
            &&& steps[0] is Motion
            &&& steps[1] is Button
        }),
{
}

/// A release never shifts a focus, whatever is at the point.
pub proof fn releases_keep_the_focus(
    pos: Position,
    under: HitTestResult,
    window: Option<WindowId>,
    has_keyboard: bool,
    button: Seq<char>,
)
    ensures
        ({
            let steps = button_steps(pos, under, window, has_keyboard, button, false);
            &&& steps.len() == 2
            &&& steps[0] == (PointerStep::Motion { focus: None, location: pos })
        }),
{
}

/// Opposite directions undo each other.
pub proof fn scrolling_back_undoes(amount: i32)
    ensures
        scroll_for("up"@, amount) matches Some((axis, value)) && scroll_for("down"@, amount) == Some(
            (axis, -value),
        ),
        scroll_for("left"@, amount) matches Some((axis, value)) && scroll_for("right"@, amount)
            == Some((axis, -value)),
{
    reveal_strlit("up");
    reveal_strlit("down");
    reveal_strlit("left");
    reveal_strlit("right");
    assert("up"@.len() == 2 && "down"@.len() == 4 && "left"@.len() == 4 && "right"@.len() == 5);
    assert("left"@[0] != "down"@[0]);
}

/// What a client has at a point is found at its place in the client, moved by the place of the window
/// and, if the window is decorated, by the height of its title bar.
pub proof fn client_hits_are_placed(
    window: WindowElement,
    pos: Position,
    loc: Point,
    surface: SurfaceId,
    place: Point,
    inner_geo: Rectangle,
)
    requires
        i32::MIN <= loc.x + place.x <= i32::MAX,
        i32::MIN <= loc.y + place.y <= i32::MAX - 32,
        place.y <= i32::MAX - 32,
    ensures
        under_pointer(window, pos, loc, Some((surface, place)), inner_geo) matches Some(hit) && {
            &&& window.surface is Wayland ==> hit.target == PointerFocusTarget::WlSurface(surface)
            &&& window.surface matches WindowSurface::X11(id) ==> hit.target
                == PointerFocusTarget::X11Surface(id)
            &&& hit.origin.x == loc.x + place.x
            &&& hit.origin.y == loc.y + place.y + if window.decorations.is_ssd {
                32int
            } else {
                0
            }
        },
{
}

/// Where the client has nothing, the decorations of a window are hit on its title bar and along its
/// edges, wherever the window is, and they are hit at the place of the window. Without decorations
/// nothing is hit.
pub proof fn decoration_hits_move_with_the_window(
    window: WindowElement,
    pos: Position,
    loc: Point,
    inner_geo: Rectangle,
)
    requires
        is_seen(pos.x, loc.x as int),
        is_seen(pos.y, loc.y as int),
    ensures
        ({
            let hit = under_pointer(window, pos, loc, None, inner_geo);
            let (right, bottom) = (loc.x + inner_geo.size.w, loc.y + 32 + inner_geo.size.h);
            &&& !window.decorations.is_ssd ==> hit is None
            &&& window.decorations.is_ssd ==> (hit is Some <==> {
                ||| pos.y.before(loc.y + 32)
                ||| pos.x.before(loc.x + 6)
                ||| pos.x.after(right - 6)
                ||| pos.y.after(bottom - 6)
                ||| pos.y.after(bottom - 12) && pos.x.before(loc.x + 12)
                ||| pos.y.after(bottom - 12) && pos.x.after(right - 12)
            })
            &&& hit matches Some(found) ==> found.target == PointerFocusTarget::SSD(window.surface)
                && found.origin == loc
        }),
{
    let local = local_to(pos, loc);
    crate::utils::coordinates_shift(pos.y, loc.y as int, 32);
    crate::utils::coordinates_shift(pos.x, loc.x as int, 6);
    crate::utils::coordinates_shift(pos.x, loc.x as int, 12);
    crate::utils::coordinates_shift(pos.x, loc.x as int, inner_geo.size.w - 6);
    crate::utils::coordinates_shift(pos.x, loc.x as int, inner_geo.size.w - 12);
    crate::utils::coordinates_shift(pos.y, loc.y as int, 32 + inner_geo.size.h - 6);
    crate::utils::coordinates_shift(pos.y, loc.y as int, 32 + inner_geo.size.h - 12);
    crate::shell::element::pointers_hit_clients_or_decorations(
        window,
        local,
        None,
        inner_geo.size,
    );
}

/// A press moves the pointer onto what is at the point, presses the button there, and then gives the
/// keyboard focus to the window at the point, if there are both. A release moves the pointer off
/// everything and releases the button, and does no more.
pub proof fn buttons_are_pressed_at_the_point(
    pos: Position,
    under: HitTestResult,
    window: Option<WindowId>,
    has_keyboard: bool,
    button: Seq<char>,
)
    ensures
        ({
            let press = button_steps(pos, under, window, has_keyboard, button, true);
            let release = button_steps(pos, under, window, has_keyboard, button, false);
            &&& press[0] == (PointerStep::Motion { focus: under, location: pos })
            &&& press[1] matches PointerStep::Button { code, state } && state == ButtonState::Pressed
            &&& release[1] matches PointerStep::Button { code, state } && state
                == ButtonState::Released
            &&& press[1]->code == release[1]->code
            &&& press.len() == if window is Some && has_keyboard {
                3int
            } else {
                2
            }
            &&& press.len() == 3 ==> press[2] == PointerStep::FocusKeyboard(window->0)
            &&& release.len() == 2
            &&& release[0] == (PointerStep::Motion { focus: None, location: pos })
        }),
{
}

/// Buttons are numbered as Linux numbers them: left, right, middle. Any other name means the left one.
pub proof fn buttons_are_numbered_in_order(name: Seq<char>)
    ensures
        button_code("left"@) == 0x110,
        button_code("right"@) == button_code("left"@) + 1,
        button_code("middle"@) == button_code("left"@) + 2,
        name != "right"@ && name != "middle"@ ==> button_code(name) == button_code("left"@),
{
    reveal_strlit("left");
    reveal_strlit("right");
    reveal_strlit("middle");
    assert("left"@.len() == 4 && "right"@.len() == 5 && "middle"@.len() == 6);
}

/// Scrolling down and up is vertical, scrolling right and left is horizontal; each step goes 15 units,
/// forwards for down and right. Other directions do not scroll.
pub proof fn scrolling_goes_in_steps(direction: Seq<char>, amount: i32)
    ensures
        scroll_for("down"@, amount) == Some((Axis::Vertical, 15 * amount)),
        scroll_for("up"@, amount) == Some((Axis::Vertical, -15 * amount)),
        scroll_for("right"@, amount) == Some((Axis::Horizontal, 15 * amount)),
        scroll_for("left"@, amount) == Some((Axis::Horizontal, -15 * amount)),
        direction != "down"@ && direction != "up"@ && direction != "right"@ && direction != "left"@
            ==> scroll_for(direction, amount) is None,
{
    reveal_strlit("up");
    reveal_strlit("down");
    reveal_strlit("left");
    reveal_strlit("right");
    assert("up"@.len() == 2 && "down"@.len() == 4 && "left"@.len() == 4 && "right"@.len() == 5);
    assert("left"@[0] != "down"@[0]);
}

} // verus!
