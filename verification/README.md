# anvil

The decision core of a Wayland compositor with server-side decorations, workspaces and two seats:
one for the user, one for an assistant. The library decides; it touches no socket, no file and no
graphics device. It is written in Rust and verified with Verus.

## Layout

- `src/utils.rs`, `src/text.rs`: integer geometry, serials, strings and numerals.
- `src/shell/`: windows and their decorations. `element.rs` says what is under the pointer and what
  a press on the decorations asks for, `snap.rs` where a dragged window snaps to, `xdg.rs` how
  toplevels and popups are placed, moved, resized, maximized and made fullscreen. `ssd/` holds the
  header bar, its theme, its drawing and its hit zones.
- `src/workspace/`: workspaces, their windows, and the commands that manage them.
- `src/keyboard.rs`, `src/pointer.rs`: key strokes for typed text and named combinations, pointer
  events with the focus that they need.
- `src/render.rs`, `src/repaint.rs`: what an output shows, and who is told of a repaint.
- `src/cursor.rs`: cursor themes, sizes and animations.
- `src/state.rs`: the state of the compositor, startup, clients, captures, activation.
- `tests/`: the library seen from outside.
- `app/`: protocol objects, rendering, files and processes around the library.

## How it is specified

Contracts speak of spec functions beside the code that they describe. Properties that relate
several functions stand as public proof functions at the end of each module, each with its meaning
in words above it.

The pointer can be anywhere between two pixels. `Coord` keeps a whole number, or between which two
whole numbers a position is, which is all that hit-testing asks for. Sums of coordinates do not
wrap: they stay at the ends of the range.

Three functions are trusted to do what their contracts say: `text::to_lowercase`,
`cursor::parse_xcursor` and `shell::ssd::render::new_pixmap`. Each calls one function of the
standard library or of another crate, which is named above it.
