//! Keyboard input synthesis: key combinations and typed text as key events.
//!
//! Keycodes follow the physical QWERTY layout, not the order of the alphabet.

use vstd::prelude::*;
use vstd::utf8::is_ascii_chars;

use crate::text::{
    ascii_lowered, lowercase, pieces, pieces_are_never_empty, pieces_of_ascii, pieces_of_lowered, same,
    split, texts, to_lowercase,
};
use crate::WindowId;

verus! {

/// Whether a key goes down or up.
#[derive(Debug, Clone, Copy, PartialEq, Eq, Structural)]
pub enum KeyState {
    Pressed,
    Released,
}

/// A key going down or up.
#[derive(Debug, Clone, Copy, PartialEq, Eq, Structural)]
pub struct KeyEvent {
    pub keycode: u32,
    pub state: KeyState,
}

/// Keycode of the left shift key.
pub const KEY_LEFT_SHIFT: u32 = 50;

/// The keycode of a modifier name in lower case.
pub open spec fn modifier_code(name: Seq<char>) -> Option<u32> {
    if name == "ctrl"@ || name == "control"@ {
        Some(37)
    } else if name == "alt"@ {
        Some(64)
    } else if name == "shift"@ {
        Some(50)
    } else if name == "super"@ || name == "win"@ || name == "meta"@ {
        Some(133)
    } else {
        None
    }
}

/// The keycode of a key with a name of its own, in lower case.
pub open spec fn named_code(name: Seq<char>) -> Option<u32> {
    if name == "return"@ || name == "enter"@ {
        Some(36)
    } else if name == "tab"@ {
        Some(23)
    } else if name == "escape"@ || name == "esc"@ {
        Some(9)
    } else if name == "backspace"@ {
        Some(22)
    } else if name == "delete"@ || name == "del"@ {
        Some(119)
    } else if name == "space"@ {
        Some(65)
    } else if name == "up"@ {
        Some(111)
    } else if name == "down"@ {
        Some(116)
    } else if name == "left"@ {
        Some(113)
    } else if name == "right"@ {
        Some(114)
    } else if name == "home"@ {
        Some(110)
    } else if name == "end"@ {
        Some(115)
    } else if name == "pageup"@ || name == "page_up"@ {
        Some(112)
    } else if name == "pagedown"@ || name == "page_down"@ {
        Some(117)
    } else if name == "f1"@ {
        Some(67)
    } else if name == "f2"@ {
        Some(68)
    } else if name == "f3"@ {
        Some(69)
    } else if name == "f4"@ {
        Some(70)
    } else if name == "f5"@ {
        Some(71)
    } else if name == "f6"@ {
        Some(72)
    } else if name == "f7"@ {
        Some(73)
    } else if name == "f8"@ {
        Some(74)
    } else if name == "f9"@ {
        Some(75)
    } else if name == "f10"@ {
        Some(76)
    } else if name == "f11"@ {
        Some(95)
    } else if name == "f12"@ {
        Some(96)
    } else {
        None
    }
}

/// The keycode of the key that produces a character without shift.
pub open spec fn plain_code(c: char) -> Option<u32> {
    match c {
        'a' => Some(38),
        'b' => Some(56),
        'c' => Some(54),
        'd' => Some(40),
        'e' => Some(26),
        'f' => Some(41),
        'g' => Some(42),
        'h' => Some(43),
        'i' => Some(31),
        'j' => Some(44),
        'k' => Some(45),
        'l' => Some(46),
        'm' => Some(58),
        'n' => Some(57),
        'o' => Some(32),
        'p' => Some(33),
        'q' => Some(24),
        'r' => Some(27),
        's' => Some(39),
        't' => Some(28),
        'u' => Some(30),
        'v' => Some(55),
        'w' => Some(25),
        'x' => Some(53),
        'y' => Some(29),
        'z' => Some(52),
        '0' => Some(19),
        '1' => Some(10),
        '2' => Some(11),
        '3' => Some(12),
        '4' => Some(13),
        '5' => Some(14),
        '6' => Some(15),
        '7' => Some(16),
        '8' => Some(17),
        '9' => Some(18),
        '/' => Some(61),
        '.' => Some(60),
        ',' => Some(59),
        ';' => Some(47),
        '\'' => Some(48),
        '[' => Some(34),
        ']' => Some(35),
        '-' => Some(20),
        '=' => Some(21),
        '\\' => Some(51),
        '`' => Some(49),
        _ => None,
    }
}

/// The keycode of a key name in lower case: a name of its own, or the character that the key
/// produces.
pub open spec fn key_code(name: Seq<char>) -> Option<u32> {
    if named_code(name) is Some {
        named_code(name)
    } else if name.len() == 1 {
        plain_code(name[0])
    } else {
        None
    }
}

/// The character that the key of `c` produces without shift, where `c` needs shift.
pub open spec fn unshifted(c: char) -> Option<char> {
    if 'A' <= c && c <= 'Z' {
        Some(((c as u32) + 32) as char)
    } else {
        match c {
            ':' => Some(';'),
            '"' => Some('\''),
            '!' => Some('1'),
            '@' => Some('2'),
            '#' => Some('3'),
            '$' => Some('4'),
            '%' => Some('5'),
            '^' => Some('6'),
            '&' => Some('7'),
            '*' => Some('8'),
            '(' => Some('9'),
            ')' => Some('0'),
            '_' => Some('-'),
            '+' => Some('='),
            '{' => Some('['),
            '}' => Some(']'),
            '|' => Some('\\'),
            '~' => Some('`'),
            '<' => Some(','),
            '>' => Some('.'),
            '?' => Some('/'),
            _ => None,
        }
    }
}

/// The keycode that types a character, and whether shift is held; none for a character that the
/// layout lacks.
pub open spec fn typed_code(c: char) -> Option<(u32, bool)> {
    if c == ' ' {
        Some((65, false))
    } else if plain_code(c) is Some {
        Some((plain_code(c)->0, false))
    } else {
        match unshifted(c) {
            Some(base) => Some((plain_code(base)->0, true)),
            None => None,
        }
    }
}

fn modifier_keycode(name: &str) -> (code: Option<u32>)
    ensures
        code == modifier_code(name@),
{
    if same(name, "ctrl") || same(name, "control") {
        Some(37)
    } else if same(name, "alt") {
        Some(64)
    } else if same(name, "shift") {
        Some(50)
    } else if same(name, "super") || same(name, "win") || same(name, "meta") {
        Some(133)
    } else {
        None
    }
}

fn named_keycode(name: &str) -> (code: Option<u32>)
    ensures
        code == named_code(name@),
{
    if same(name, "return") || same(name, "enter") {
        Some(36)
    } else if same(name, "tab") {
        Some(23)
    } else if same(name, "escape") || same(name, "esc") {
        Some(9)
    } else if same(name, "backspace") {
        Some(22)
    } else if same(name, "delete") || same(name, "del") {
        Some(119)
    } else if same(name, "space") {
        Some(65)
    } else if same(name, "up") {
        Some(111)
    } else if same(name, "down") {
        Some(116)
    } else if same(name, "left") {
        Some(113)
    } else if same(name, "right") {
        Some(114)
    } else if same(name, "home") {
        Some(110)
    } else if same(name, "end") {
        Some(115)
    } else if same(name, "pageup") || same(name, "page_up") {
        Some(112)
    } else if same(name, "pagedown") || same(name, "page_down") {
        Some(117)
    } else if same(name, "f1") {
        Some(67)
    } else if same(name, "f2") {
        Some(68)
    } else if same(name, "f3") {
        Some(69)
    } else if same(name, "f4") {
        Some(70)
    } else if same(name, "f5") {
        Some(71)
    } else if same(name, "f6") {
        Some(72)
    } else if same(name, "f7") {
        Some(73)
    } else if same(name, "f8") {
        Some(74)
    } else if same(name, "f9") {
        Some(75)
    } else if same(name, "f10") {
        Some(76)
    } else if same(name, "f11") {
        Some(95)
    } else if same(name, "f12") {
        Some(96)
    } else {
        None
    }
}

/// The keycode of the key that produces a character without shift.
pub fn plain_keycode(c: char) -> (code: Option<u32>)
    ensures
        code == plain_code(c),
{
    match c {
        'a' => Some(38),
        'b' => Some(56),
        'c' => Some(54),
        'd' => Some(40),
        'e' => Some(26),
        'f' => Some(41),
        'g' => Some(42),
        'h' => Some(43),
        'i' => Some(31),
        'j' => Some(44),
        'k' => Some(45),
        'l' => Some(46),
        'm' => Some(58),
        'n' => Some(57),
        'o' => Some(32),
        'p' => Some(33),
        'q' => Some(24),
        'r' => Some(27),
        's' => Some(39),
        't' => Some(28),
        'u' => Some(30),
        'v' => Some(55),
        'w' => Some(25),
        'x' => Some(53),
        'y' => Some(29),
        'z' => Some(52),
        '0' => Some(19),
        '1' => Some(10),
        '2' => Some(11),
        '3' => Some(12),
        '4' => Some(13),
        '5' => Some(14),
        '6' => Some(15),
        '7' => Some(16),
        '8' => Some(17),
        '9' => Some(18),
        '/' => Some(61),
        '.' => Some(60),
        ',' => Some(59),
        ';' => Some(47),
        '\'' => Some(48),
        '[' => Some(34),
        ']' => Some(35),
        '-' => Some(20),
        '=' => Some(21),
        '\\' => Some(51),
        '`' => Some(49),
        _ => None,
    }
}

/// The keycode of a key name in lower case.
pub fn keycode_for(name: &str) -> (code: Option<u32>)
    ensures
        code == key_code(name@),
{
    match named_keycode(name) {
        Some(code) => Some(code),
        None => if name.unicode_len() == 1 {
            plain_keycode(name.get_char(0))
        } else {
            None
        },
    }
}

/// The keycode that types a character, and whether shift is held.
pub fn typed_keycode(c: char) -> (code: Option<(u32, bool)>)
    ensures
        code == typed_code(c),
{
    match c {
        'a' => Some((38, false)),
        'b' => Some((56, false)),
        'c' => Some((54, false)),
        'd' => Some((40, false)),
        'e' => Some((26, false)),
        'f' => Some((41, false)),
        'g' => Some((42, false)),
        'h' => Some((43, false)),
        'i' => Some((31, false)),
        'j' => Some((44, false)),
        'k' => Some((45, false)),
        'l' => Some((46, false)),
        'm' => Some((58, false)),
        'n' => Some((57, false)),
        'o' => Some((32, false)),
        'p' => Some((33, false)),
        'q' => Some((24, false)),
        'r' => Some((27, false)),
        's' => Some((39, false)),
        't' => Some((28, false)),
        'u' => Some((30, false)),
        'v' => Some((55, false)),
        'w' => Some((25, false)),
        'x' => Some((53, false)),
        'y' => Some((29, false)),
        'z' => Some((52, false)),
        'A' => Some((38, true)),
        'B' => Some((56, true)),
        'C' => Some((54, true)),
        'D' => Some((40, true)),
        'E' => Some((26, true)),
        'F' => Some((41, true)),
        'G' => Some((42, true)),
        'H' => Some((43, true)),
        'I' => Some((31, true)),
        'J' => Some((44, true)),
        'K' => Some((45, true)),
        'L' => Some((46, true)),
        'M' => Some((58, true)),
        'N' => Some((57, true)),
        'O' => Some((32, true)),
        'P' => Some((33, true)),
        'Q' => Some((24, true)),
        'R' => Some((27, true)),
        'S' => Some((39, true)),
        'T' => Some((28, true)),
        'U' => Some((30, true)),
        'V' => Some((55, true)),
        'W' => Some((25, true)),
        'X' => Some((53, true)),
        'Y' => Some((29, true)),
        'Z' => Some((52, true)),
        ' ' => Some((65, false)),
        '0' => Some((19, false)),
        '1' => Some((10, false)),
        '2' => Some((11, false)),
        '3' => Some((12, false)),
        '4' => Some((13, false)),
        '5' => Some((14, false)),
        '6' => Some((15, false)),
        '7' => Some((16, false)),
        '8' => Some((17, false)),
        '9' => Some((18, false)),
        '/' => Some((61, false)),
        '.' => Some((60, false)),
        ',' => Some((59, false)),
        ';' => Some((47, false)),
        '\'' => Some((48, false)),
        '[' => Some((34, false)),
        ']' => Some((35, false)),
        '-' => Some((20, false)),
        '=' => Some((21, false)),
        '\\' => Some((51, false)),
        '`' => Some((49, false)),
        ':' => Some((47, true)),
        '"' => Some((48, true)),
        '!' => Some((10, true)),
        '@' => Some((11, true)),
        '#' => Some((12, true)),
        '$' => Some((13, true)),
        '%' => Some((14, true)),
        '^' => Some((15, true)),
        '&' => Some((16, true)),
        '*' => Some((17, true)),
        '(' => Some((18, true)),
        ')' => Some((19, true)),
        '_' => Some((20, true)),
        '+' => Some((21, true)),
        '{' => Some((34, true)),
        '}' => Some((35, true)),
        '|' => Some((51, true)),
        '~' => Some((49, true)),
        '<' => Some((59, true)),
        '>' => Some((60, true)),
        '?' => Some((61, true)),
        _ => None,
    }
}

/// One event per keycode, all in the same state.
pub open spec fn all_in(state: KeyState, codes: Seq<u32>) -> Seq<KeyEvent> {
    codes.map_values(|keycode: u32| KeyEvent { keycode, state })
}

/// A key pressed and released while modifiers are held: the modifiers go down in order and up in
/// reverse order.
pub open spec fn stroke(modifiers: Seq<u32>, keycode: u32) -> Seq<KeyEvent> {
    all_in(KeyState::Pressed, modifiers) + seq![
        KeyEvent { keycode, state: KeyState::Pressed },
        KeyEvent { keycode, state: KeyState::Released },
    ] + all_in(KeyState::Released, modifiers.reverse())
}

/// The keycodes of the modifiers among names in lower case; other names are skipped.
pub open spec fn modifier_codes(names: Seq<Seq<char>>) -> Seq<u32>
    decreases names.len(),
{
    if names.len() == 0 {
        seq![]
    } else {
        let earlier = modifier_codes(names.drop_last());
        match modifier_code(names.last()) {
            Some(code) => earlier.push(code),
            None => earlier,
        }
    }
}

/// The events of a key combination, given its parts in lower case: the last part is the key, the
/// others are modifiers. None if the key is unknown.
pub open spec fn combination(parts: Seq<Seq<char>>) -> Option<Seq<KeyEvent>> {
    match key_code(parts.last()) {
        Some(keycode) => Some(stroke(modifier_codes(parts.drop_last()), keycode)),
        None => None,
    }
}

/// The parts of a combination such as `ctrl+l`, in lower case.
pub open spec fn combination_parts(key: Seq<char>) -> Seq<Seq<char>> {
    pieces(key, '+').map_values(|part: Seq<char>| lowercase(part))
}

/// Each part of a combination that is ASCII has its letters `A` to `Z` lowered, and nothing else
/// changed, whatever the other parts hold.
pub open spec fn ascii_parts_are_lowered(key: Seq<char>) -> bool {
    forall|i: int|
        0 <= i < combination_parts(key).len() && is_ascii_chars(pieces(key, '+')[i])
            ==> #[trigger] combination_parts(key)[i] == ascii_lowered(pieces(key, '+')[i])
}

/// The parts of a combination in ASCII, in lower case.
pub open spec fn ascii_parts(key: Seq<char>) -> Seq<Seq<char>> {
    pieces(ascii_lowered(key), '+')
}

/// Presses and releases a key while modifiers are held.
fn stroke_events(modifiers: &Vec<u32>, keycode: u32) -> (events: Vec<KeyEvent>)
    ensures
        events@ == stroke(modifiers@, keycode),
{
    let mut events: Vec<KeyEvent> = Vec::new();
    let count: usize = modifiers.len();
    let mut i: usize = 0;
    while i < count
        invariant
            count == modifiers@.len(),
            i <= count,
            events@ == all_in(KeyState::Pressed, modifiers@.take(i as int)),
        decreases count - i,
    {
        events.push(KeyEvent { keycode: modifiers[i], state: KeyState::Pressed });
        i = i + 1;
        assert(events@ =~= all_in(KeyState::Pressed, modifiers@.take(i as int)));
    }
    assert(modifiers@.take(count as int) =~= modifiers@);
    events.push(KeyEvent { keycode, state: KeyState::Pressed });
    events.push(KeyEvent { keycode, state: KeyState::Released });
    let ghost held = events@;
    assert(held =~= all_in(KeyState::Pressed, modifiers@) + seq![
        KeyEvent { keycode, state: KeyState::Pressed },
        KeyEvent { keycode, state: KeyState::Released },
    ]);
    while i > 0
        invariant
            count == modifiers@.len(),
            i <= count,
            events@ == held + all_in(KeyState::Released, modifiers@.reverse().take(count - i)),
        decreases i,
    {
        i = i - 1;
        events.push(KeyEvent { keycode: modifiers[i], state: KeyState::Released });
        assert(events@ =~= held + all_in(
            KeyState::Released,
            modifiers@.reverse().take(count - i),
        ));
    }
    assert(modifiers@.reverse().take(count as int) =~= modifiers@.reverse());
    events
}

/// The events of a key combination whose parts are already in lower case.
pub fn combination_events(parts: &Vec<String>) -> (events: Option<Vec<KeyEvent>>)
    requires
        parts@.len() > 0,
    ensures
        events is Some <==> combination(texts(parts@)) is Some,
        events matches Some(list) ==> combination(texts(parts@)) == Some(list@),
{
    let count: usize = parts.len();
    let ghost names = texts(parts@);
    let mut modifiers: Vec<u32> = Vec::new();
    let mut i: usize = 0;
    while i < count - 1
        invariant
            count == parts@.len(),
            count > 0,
            i <= count - 1,
            names == texts(parts@),
            modifiers@ == modifier_codes(names.take(i as int)),
        decreases count - i,
    {
        proof {
            assert(names.take(i + 1).drop_last() =~= names.take(i as int));
            assert(names.take(i + 1).last() == parts@[i as int]@);
        }
        if let Some(code) = modifier_keycode(parts[i].as_str()) {
            modifiers.push(code);
        }
        i = i + 1;
    }
    assert(names.take(count - 1) =~= names.drop_last());
    assert(names.last() == parts@[count - 1]@);
    match keycode_for(parts[count - 1].as_str()) {
        Some(keycode) => Some(stroke_events(&modifiers, keycode)),
        None => None,
    }
}

/// The events of a key combination such as `ctrl+l`, `alt+tab` or `shift+Return`; letter case does
/// not matter. None if the key is unknown.
pub fn key_events(key: &str) -> (events: Option<Vec<KeyEvent>>)
    ensures
        events is Some <==> combination(combination_parts(key@)) is Some,
        events matches Some(list) ==> combination(combination_parts(key@)) == Some(list@),
        ascii_parts_are_lowered(key@),
        is_ascii_chars(key@) ==> combination_parts(key@) == ascii_parts(key@),
{
    let parts = split(key, '+');
    let count: usize = parts.len();
    let mut lower: Vec<String> = Vec::new();
    let mut i: usize = 0;
    while i < count
        invariant
            count == parts@.len(),
            i <= count,
            texts(parts@) == pieces(key@, '+'),
            texts(lower@) == texts(parts@).take(i as int).map_values(
                |part: Seq<char>| lowercase(part),
            ),
            forall|j: int|
                0 <= j < i && is_ascii_chars(#[trigger] texts(parts@)[j]) ==> lowercase(
                    texts(parts@)[j],
                ) == ascii_lowered(texts(parts@)[j]),
            is_ascii_chars(key@) ==> forall|j: int|
                0 <= j < i ==> is_ascii_chars(#[trigger] texts(parts@)[j]),
        decreases count - i,
    {
        let ghost before = lower@;
        assert(texts(parts@)[i as int] == parts@[i as int]@);
        proof {
            if is_ascii_chars(key@) {
                pieces_of_ascii(key@, '+', 0, 0, i as int);
            }
        }
        let part = to_lowercase(parts[i].as_str());
        lower.push(part);
        i = i + 1;
        proof {
            assert(texts(lower@) =~= texts(before).push(part@));
            assert(texts(lower@) =~= texts(parts@).take(i as int).map_values(
                |part: Seq<char>| lowercase(part),
            ));
        }
    }
    proof {
        assert(texts(parts@).take(count as int) =~= texts(parts@));
        pieces_are_never_empty(key@, '+', 0, 0);
        assert(texts(lower@).len() == combination_parts(key@).len());
        if is_ascii_chars(key@) {
            pieces_of_lowered(key@, '+', 0, 0);
            assert(combination_parts(key@) =~= ascii_parts(key@));
        }
    }
    combination_events(&lower)
}

/// The strokes that type a text, one per character; characters that the layout lacks are skipped.
pub open spec fn typing(text: Seq<char>) -> Seq<Seq<KeyEvent>>
    decreases text.len(),
{
    if text.len() == 0 {
        seq![]
    } else {
        let earlier = typing(text.drop_last());
        match typed_code(text.last()) {
            Some((keycode, shift)) => earlier.push(typed_stroke(keycode, shift)),
            None => earlier,
        }
    }
}

/// A key pressed and released, with shift held or not.
pub open spec fn typed_stroke(keycode: u32, shift: bool) -> Seq<KeyEvent> {
    stroke(
        if shift {
            seq![KEY_LEFT_SHIFT]
        } else {
            seq![]
        },
        keycode,
    )
}

/// The views of a list of event lists.
pub open spec fn strokes_view(strokes: Seq<Vec<KeyEvent>>) -> Seq<Seq<KeyEvent>> {
    strokes.map_values(|events: Vec<KeyEvent>| events@)
}

/// The strokes that type a text.
pub fn type_events(text: &str) -> (strokes: Vec<Vec<KeyEvent>>)
    ensures
        strokes_view(strokes@) == typing(text@),
{
    let chars = crate::text::characters(text);
    let count: usize = chars.len();
    let mut strokes: Vec<Vec<KeyEvent>> = Vec::new();
    let mut i: usize = 0;
    assert(strokes_view(strokes@) =~= typing(chars@.take(0)));
    while i < count
        invariant
            count == chars@.len(),
            i <= count,
            strokes_view(strokes@) == typing(chars@.take(i as int)),
        decreases count - i,
    {
        let ghost before = strokes@;
        proof {
            assert(chars@.take(i + 1).drop_last() =~= chars@.take(i as int));
            assert(chars@.take(i + 1).last() == chars@[i as int]);
        }
        if let Some((keycode, shift)) = typed_keycode(chars[i]) {
            let mut modifiers: Vec<u32> = Vec::new();
            if shift {
                modifiers.push(KEY_LEFT_SHIFT);
            }
            assert(modifiers@ =~= if shift {
                seq![KEY_LEFT_SHIFT]
            } else {
                seq![]
            });
            let events = stroke_events(&modifiers, keycode);
            strokes.push(events);
            assert(strokes_view(strokes@) =~= strokes_view(before).push(events@));
        }
        i = i + 1;
    }
    assert(chars@.take(count as int) =~= chars@);
    strokes
}

/// What to do to the keyboard of the automation seat.
#[derive(Debug)]
pub struct KeyboardPlan {
    /// The window that takes the keyboard focus first, if it moves.
    pub focus: Option<WindowId>,
    /// Groups of key events; the events of a group share a serial.
    pub strokes: Vec<Vec<KeyEvent>>,
}

/// Plans a key press and release, with an optional modifier combination, for the seat's keyboard.
///
/// `window_under` is the window of the target workspace under the seat's pointer. The focus moves
/// there even if the key turns out to be unknown. Without a keyboard nothing happens.
pub fn do_keyboard_key(has_keyboard: bool, window_under: Option<WindowId>, key: &str) -> (plan:
    KeyboardPlan)
    ensures
        plan.focus == if has_keyboard {
            window_under
        } else {
            None
        },
        strokes_view(plan.strokes@) == match combination(combination_parts(key@)) {
            Some(events) if has_keyboard => seq![events],
            _ => seq![],
        },
        has_keyboard ==> ascii_parts_are_lowered(key@),
        has_keyboard && is_ascii_chars(key@) ==> combination_parts(key@) == ascii_parts(key@),
{
    let mut strokes: Vec<Vec<KeyEvent>> = Vec::new();
    if !has_keyboard {
        assert(strokes_view(strokes@) =~= seq![]);
        return KeyboardPlan { focus: None, strokes };
    }
    match key_events(key) {
        Some(events) => {
            strokes.push(events);
            assert(strokes_view(strokes@) =~= seq![events@]);
        },
        None => {
            assert(strokes_view(strokes@) =~= seq![]);
        },
    }
    KeyboardPlan { focus: window_under, strokes }
}

/// Plans the typing of a text on the seat's keyboard, one stroke per character.
pub fn do_keyboard_type(has_keyboard: bool, window_under: Option<WindowId>, text: &str) -> (plan:
    KeyboardPlan)
    ensures
        plan.focus == if has_keyboard {
            window_under
        } else {
            None
        },
        strokes_view(plan.strokes@) == if has_keyboard {
            typing(text@)
        } else {
            seq![]
        },
{
    if !has_keyboard {
        let strokes: Vec<Vec<KeyEvent>> = Vec::new();
        assert(strokes_view(strokes@) =~= seq![]);
        return KeyboardPlan { focus: None, strokes };
    }
    KeyboardPlan { focus: window_under, strokes: type_events(text) }
}

/// How many times more often a key goes down than up over a list of events.
pub open spec fn held_after(events: Seq<KeyEvent>, keycode: u32) -> int
    decreases events.len(),
{
    if events.len() == 0 {
        0
    } else {
        let earlier = held_after(events.drop_last(), keycode);
        if events.last().keycode != keycode {
            earlier
        } else if events.last().state is Pressed {
            earlier + 1
        } else {
            earlier - 1
        }
    }
}

proof fn held_over_two(a: Seq<KeyEvent>, b: Seq<KeyEvent>, keycode: u32)
    ensures
        held_after(a + b, keycode) == held_after(a, keycode) + held_after(b, keycode),
    decreases b.len(),
{
    if b.len() == 0 {
        assert(a + b =~= a);
    } else {
        assert((a + b).drop_last() =~= a + b.drop_last());
        held_over_two(a, b.drop_last(), keycode);
    }
}

/// Prepending an event counts as appending it does.
proof fn held_with_first(first: KeyEvent, rest: Seq<KeyEvent>, keycode: u32)
    ensures
        held_after(seq![first] + rest, keycode) == held_after(seq![first], keycode) + held_after(
            rest,
            keycode,
        ),
{
    held_over_two(seq![first], rest, keycode);
}

proof fn presses_undone(codes: Seq<u32>, keycode: u32)
    ensures
        held_after(all_in(KeyState::Pressed, codes), keycode) + held_after(
            all_in(KeyState::Released, codes.reverse()),
            keycode,
        ) == 0,
    decreases codes.len(),
{
    reveal_with_fuel(held_after, 2);
    if codes.len() > 0 {
        let earlier = codes.drop_last();
        let last = codes.last();
        presses_undone(earlier, keycode);
        assert(all_in(KeyState::Pressed, codes).drop_last() =~= all_in(KeyState::Pressed, earlier));
        let first = KeyEvent { keycode: last, state: KeyState::Released };
        assert(all_in(KeyState::Released, codes.reverse()) =~= seq![first] + all_in(
            KeyState::Released,
            earlier.reverse(),
        ));
        held_with_first(first, all_in(KeyState::Released, earlier.reverse()), keycode);
        assert(seq![first].drop_last() =~= Seq::<KeyEvent>::empty());
    } else {
        assert(all_in(KeyState::Pressed, codes) =~= seq![]);
        assert(all_in(KeyState::Released, codes.reverse()) =~= seq![]);
    }
}

/// A stroke leaves no key held: every key that goes down comes up again.
pub proof fn strokes_hold_nothing(modifiers: Seq<u32>, pressed: u32, keycode: u32)
    ensures
        held_after(stroke(modifiers, pressed), keycode) == 0,
{
    reveal_with_fuel(held_after, 3);
    let down = KeyEvent { keycode: pressed, state: KeyState::Pressed };
    let up = KeyEvent { keycode: pressed, state: KeyState::Released };
    let middle = seq![down, up];
    let before = all_in(KeyState::Pressed, modifiers);
    let after = all_in(KeyState::Released, modifiers.reverse());
    assert(middle.drop_last() =~= seq![down]);
    assert(seq![down].drop_last() =~= Seq::<KeyEvent>::empty());
    held_over_two(before, middle, keycode);
    held_over_two(before + middle, after, keycode);
    presses_undone(modifiers, keycode);
}

/// Keys come up in the reverse of the order in which they went down.
pub proof fn strokes_are_mirrored(modifiers: Seq<u32>, pressed: u32, i: int)
    requires
        0 <= i < stroke(modifiers, pressed).len(),
    ensures
        ({
            let events = stroke(modifiers, pressed);
            let mirror = events[events.len() - 1 - i];
            &&& mirror.keycode == events[i].keycode
            &&& mirror.state != events[i].state
            &&& i < modifiers.len() + 1 <==> events[i].state is Pressed
        }),
{
}

/// The letter case of a key combination does not matter.
pub proof fn letter_case_does_not_matter(a: Seq<char>, b: Seq<char>)
    requires
        ascii_lowered(a) == ascii_lowered(b),
    ensures
        combination(ascii_parts(a)) == combination(ascii_parts(b)),
{
}

/// No key combination leaves a key held.
pub proof fn combinations_hold_nothing(parts: Seq<Seq<char>>, keycode: u32)
    requires
        combination(parts) is Some,
    ensures
        held_after(combination(parts)->0, keycode) == 0,
{
    strokes_hold_nothing(
        modifier_codes(parts.drop_last()),
        key_code(parts.last())->0,
        keycode,
    );
}

/// Typing a text is typing its parts one after the other.
pub proof fn typing_is_piecewise(a: Seq<char>, b: Seq<char>)
    ensures
        typing(a + b) == typing(a) + typing(b),
    decreases b.len(),
{
    if b.len() == 0 {
        assert(a + b =~= a);
        assert(typing(a) + typing(b) =~= typing(a));
    } else {
        assert((a + b).drop_last() =~= a + b.drop_last());
        typing_is_piecewise(a, b.drop_last());
        assert(typing(a + b) =~= typing(a) + typing(b));
    }
}

/// No stroke of a typed text leaves a key held.
pub proof fn typing_holds_nothing(text: Seq<char>, i: int, keycode: u32)
    requires
        0 <= i < typing(text).len(),
    ensures
        held_after(typing(text)[i], keycode) == 0,
    decreases text.len(),
{
    if text.len() > 0 {
        if i < typing(text.drop_last()).len() {
            typing_holds_nothing(text.drop_last(), i, keycode);
        } else {
            let (code, shift) = typed_code(text.last())->0;
            strokes_hold_nothing(
                if shift {
                    seq![KEY_LEFT_SHIFT]
                } else {
                    seq![]
                },
                code,
                keycode,
            );
        }
    }
}

/// A character that a key combination can name is typed with the key of that name, without shift.
pub proof fn keys_and_typing_agree(c: char)
    requires
        key_code(seq![c]) is Some,
    ensures
        typed_code(c) == Some((key_code(seq![c])->0, false)),
{
    single_characters_are_no_names(c);
}

proof fn single_characters_are_no_names(c: char)
    ensures
        named_code(seq![c]) is None,
{
    reveal_strlit("return");
    reveal_strlit("enter");
    reveal_strlit("tab");
    reveal_strlit("escape");
    reveal_strlit("esc");
    reveal_strlit("backspace");
    reveal_strlit("delete");
    reveal_strlit("del");
    reveal_strlit("space");
    reveal_strlit("up");
    reveal_strlit("down");
    reveal_strlit("left");
    reveal_strlit("right");
    reveal_strlit("home");
    reveal_strlit("end");
    reveal_strlit("pageup");
    reveal_strlit("page_up");
    reveal_strlit("pagedown");
    reveal_strlit("page_down");
    reveal_strlit("f1");
    reveal_strlit("f2");
    reveal_strlit("f3");
    reveal_strlit("f4");
    reveal_strlit("f5");
    reveal_strlit("f6");
    reveal_strlit("f7");
    reveal_strlit("f8");
    reveal_strlit("f9");
    reveal_strlit("f10");
    reveal_strlit("f11");
    reveal_strlit("f12");
    assert(seq![c].len() == 1);
}

/// An upper-case letter is typed with the key of its lower-case letter while shift is held.
pub proof fn capitals_are_shifted_letters(c: char)
    requires
        'A' <= c && c <= 'Z',
    ensures
        typed_code(((c as u32) + 32) as char) is Some,
        typed_code(c) == Some(((typed_code(((c as u32) + 32) as char)->0).0, true)),
{
}

/// The key with this code types one character, and another one while shift is held. Key combinations
/// name it by the character that it types without shift.
pub open spec fn is_typed_with(plain: char, shifted: char, keycode: int) -> bool {
    &&& typed_code(plain) == Some((keycode as u32, false))
    &&& typed_code(shifted) == Some((keycode as u32, true))
    &&& key_code(seq![plain]) == Some(keycode as u32)
}

/// The digits and the signs right of them are typed with the keys of the row from key 10 on.
pub proof fn digits_row_is_in_order(i: int)
    requires
        0 <= i < 12,
    ensures
        "1234567890-="@.len() == 12,
        "!@#$%^&*()_+"@.len() == 12,
        is_typed_with("1234567890-="@[i], "!@#$%^&*()_+"@[i], 10 + i),
{
    reveal_strlit("1234567890-=");
    reveal_strlit("!@#$%^&*()_+");
    single_characters_are_no_names("1234567890-="@[i]);
    assert(i == 0 || i == 1 || i == 2 || i == 3 || i == 4 || i == 5 || i == 6 || i == 7 || i == 8 || i == 9 || i == 10 || i == 11);
}

/// The letters from `q` to `p` and the brackets are typed with the keys of the row from key 24 on.
pub proof fn upper_row_is_in_order(i: int)
    requires
        0 <= i < 12,
    ensures
        "qwertyuiop[]"@.len() == 12,
        "QWERTYUIOP{}"@.len() == 12,
        is_typed_with("qwertyuiop[]"@[i], "QWERTYUIOP{}"@[i], 24 + i),
{
    reveal_strlit("qwertyuiop[]");
    reveal_strlit("QWERTYUIOP{}");
    single_characters_are_no_names("qwertyuiop[]"@[i]);
    assert(i == 0 || i == 1 || i == 2 || i == 3 || i == 4 || i == 5 || i == 6 || i == 7 || i == 8 || i == 9 || i == 10 || i == 11);
}

/// The letters from `a` to `l` and the signs after them are typed with the keys from key 38 on.
pub proof fn home_row_is_in_order(i: int)
    requires
        0 <= i < 12,
    ensures
        "asdfghjkl;'`"@.len() == 12,
        "ASDFGHJKL:\"~"@.len() == 12,
        is_typed_with("asdfghjkl;'`"@[i], "ASDFGHJKL:\"~"@[i], 38 + i),
{
    reveal_strlit("asdfghjkl;'`");
    reveal_strlit("ASDFGHJKL:\"~");
    single_characters_are_no_names("asdfghjkl;'`"@[i]);
    assert(i == 0 || i == 1 || i == 2 || i == 3 || i == 4 || i == 5 || i == 6 || i == 7 || i == 8 || i == 9 || i == 10 || i == 11);
}

/// The backslash, the letters from `z` to `m` and the signs after them are typed with the keys from key
/// 51 on.
pub proof fn lower_row_is_in_order(i: int)
    requires
        0 <= i < 11,
    ensures
        "\\zxcvbnm,./"@.len() == 11,
        "|ZXCVBNM<>?"@.len() == 11,
        is_typed_with("\\zxcvbnm,./"@[i], "|ZXCVBNM<>?"@[i], 51 + i),
{
    reveal_strlit("\\zxcvbnm,./");
    reveal_strlit("|ZXCVBNM<>?");
    single_characters_are_no_names("\\zxcvbnm,./"@[i]);
    assert(i == 0 || i == 1 || i == 2 || i == 3 || i == 4 || i == 5 || i == 6 || i == 7 || i == 8 || i == 9 || i == 10);
}

/// A character that is typed at all is the one that the row of its key has at the place of the key,
/// with shift or without; the space bar types the space.
pub proof fn keys_type_what_they_show(c: char)
    ensures
        typed_code(c) matches Some((keycode, shift)) ==> {
            ||| c == ' ' && keycode == 65 && !shift
            ||| 10 <= keycode <= 21 && c == if shift {
                "!@#$%^&*()_+"@[keycode - 10]
            } else {
                "1234567890-="@[keycode - 10]
            }
            ||| 24 <= keycode <= 35 && c == if shift {
                "QWERTYUIOP{}"@[keycode - 24]
            } else {
                "qwertyuiop[]"@[keycode - 24]
            }
            ||| 38 <= keycode <= 49 && c == if shift {
                "ASDFGHJKL:\"~"@[keycode - 38]
            } else {
                "asdfghjkl;'`"@[keycode - 38]
            }
            ||| 51 <= keycode <= 61 && c == if shift {
                "|ZXCVBNM<>?"@[keycode - 51]
            } else {
                "\\zxcvbnm,./"@[keycode - 51]
            }
        },
        typed_code(' ') == Some((65u32, false)),
{
    reveal_strlit("1234567890-=");
    reveal_strlit("!@#$%^&*()_+");
    reveal_strlit("qwertyuiop[]");
    reveal_strlit("QWERTYUIOP{}");
    reveal_strlit("asdfghjkl;'`");
    reveal_strlit("ASDFGHJKL:\"~");
    reveal_strlit("\\zxcvbnm,./");
    reveal_strlit("|ZXCVBNM<>?");
}

/// Different characters are typed in different ways.
pub proof fn characters_are_typed_apart(a: char, b: char)
    requires
        typed_code(a) is Some,
        typed_code(a) == typed_code(b),
    ensures
        a == b,
{
    keys_type_what_they_show(a);
    keys_type_what_they_show(b);
}

proof fn names_are_spelled()
    ensures
        "return"@.len() == 6 && "return"@[0] == 'r' && "return"@[1] == 'e' && "return"@[5] == 'n',
        "enter"@.len() == 5 && "enter"@[0] == 'e' && "enter"@[1] == 'n' && "enter"@[4] == 'r',
        "tab"@.len() == 3 && "tab"@[0] == 't' && "tab"@[1] == 'a' && "tab"@[2] == 'b',
        "escape"@.len() == 6 && "escape"@[0] == 'e' && "escape"@[1] == 's' && "escape"@[5] == 'e',
        "esc"@.len() == 3 && "esc"@[0] == 'e' && "esc"@[1] == 's' && "esc"@[2] == 'c',
        "backspace"@.len() == 9 && "backspace"@[0] == 'b' && "backspace"@[1] == 'a' && "backspace"@[8] == 'e',
        "delete"@.len() == 6 && "delete"@[0] == 'd' && "delete"@[1] == 'e' && "delete"@[5] == 'e',
        "del"@.len() == 3 && "del"@[0] == 'd' && "del"@[1] == 'e' && "del"@[2] == 'l',
        "space"@.len() == 5 && "space"@[0] == 's' && "space"@[1] == 'p' && "space"@[4] == 'e',
        "up"@.len() == 2 && "up"@[0] == 'u' && "up"@[1] == 'p',
        "down"@.len() == 4 && "down"@[0] == 'd' && "down"@[1] == 'o' && "down"@[3] == 'n',
        "left"@.len() == 4 && "left"@[0] == 'l' && "left"@[1] == 'e' && "left"@[3] == 't',
        "right"@.len() == 5 && "right"@[0] == 'r' && "right"@[1] == 'i' && "right"@[4] == 't',
        "home"@.len() == 4 && "home"@[0] == 'h' && "home"@[1] == 'o' && "home"@[3] == 'e',
        "end"@.len() == 3 && "end"@[0] == 'e' && "end"@[1] == 'n' && "end"@[2] == 'd',
        "pageup"@.len() == 6 && "pageup"@[0] == 'p' && "pageup"@[1] == 'a' && "pageup"@[5] == 'p',
        "page_up"@.len() == 7 && "page_up"@[0] == 'p' && "page_up"@[1] == 'a' && "page_up"@[6] == 'p',
        "pagedown"@.len() == 8 && "pagedown"@[0] == 'p' && "pagedown"@[1] == 'a' && "pagedown"@[7] == 'n',
        "page_down"@.len() == 9 && "page_down"@[0] == 'p' && "page_down"@[1] == 'a' && "page_down"@[8] == 'n',
        "f1"@.len() == 2 && "f1"@[0] == 'f' && "f1"@[1] == '1',
        "f2"@.len() == 2 && "f2"@[0] == 'f' && "f2"@[1] == '2',
        "f3"@.len() == 2 && "f3"@[0] == 'f' && "f3"@[1] == '3',
        "f4"@.len() == 2 && "f4"@[0] == 'f' && "f4"@[1] == '4',
        "f5"@.len() == 2 && "f5"@[0] == 'f' && "f5"@[1] == '5',
        "f6"@.len() == 2 && "f6"@[0] == 'f' && "f6"@[1] == '6',
        "f7"@.len() == 2 && "f7"@[0] == 'f' && "f7"@[1] == '7',
        "f8"@.len() == 2 && "f8"@[0] == 'f' && "f8"@[1] == '8',
        "f9"@.len() == 2 && "f9"@[0] == 'f' && "f9"@[1] == '9',
        "f10"@.len() == 3 && "f10"@[0] == 'f' && "f10"@[1] == '1' && "f10"@[2] == '0',
        "f11"@.len() == 3 && "f11"@[0] == 'f' && "f11"@[1] == '1' && "f11"@[2] == '1',
        "f12"@.len() == 3 && "f12"@[0] == 'f' && "f12"@[1] == '1' && "f12"@[2] == '2',
{
    reveal_strlit("return");
    reveal_strlit("enter");
    reveal_strlit("tab");
    reveal_strlit("escape");
    reveal_strlit("esc");
    reveal_strlit("backspace");
    reveal_strlit("delete");
    reveal_strlit("del");
    reveal_strlit("space");
    reveal_strlit("up");
    reveal_strlit("down");
    reveal_strlit("left");
    reveal_strlit("right");
    reveal_strlit("home");
    reveal_strlit("end");
    reveal_strlit("pageup");
    reveal_strlit("page_up");
    reveal_strlit("pagedown");
    reveal_strlit("page_down");
    reveal_strlit("f1");
    reveal_strlit("f2");
    reveal_strlit("f3");
    reveal_strlit("f4");
    reveal_strlit("f5");
    reveal_strlit("f6");
    reveal_strlit("f7");
    reveal_strlit("f8");
    reveal_strlit("f9");
    reveal_strlit("f10");
    reveal_strlit("f11");
    reveal_strlit("f12");
}

/// The function keys are numbered in order, in two groups.
pub proof fn function_keys_are_in_order()
    ensures
        key_code("f1"@) == Some(67u32),
        key_code("f2"@) == Some(68u32),
        key_code("f3"@) == Some(69u32),
        key_code("f4"@) == Some(70u32),
        key_code("f5"@) == Some(71u32),
        key_code("f6"@) == Some(72u32),
        key_code("f7"@) == Some(73u32),
        key_code("f8"@) == Some(74u32),
        key_code("f9"@) == Some(75u32),
        key_code("f10"@) == Some(76u32),
        key_code("f11"@) == Some(95u32),
        key_code("f12"@) == Some(96u32),
{
    names_are_spelled();
}

/// The navigation keys are numbered row by row, and the keys around the characters are next to them:
/// escape is before the digits, backspace after them, tab before the upper row, return after it, and
/// the space bar types the space.
pub proof fn named_keys_are_on_the_layout()
    ensures
        key_code("home"@) == Some(110u32),
        key_code("up"@) == Some(111u32),
        key_code("pageup"@) == Some(112u32),
        key_code("left"@) == Some(113u32),
        key_code("right"@) == Some(114u32),
        key_code("end"@) == Some(115u32),
        key_code("down"@) == Some(116u32),
        key_code("pagedown"@) == Some(117u32),
        key_code("delete"@) == Some(119u32),
        key_code("escape"@) == Some(9u32),
        key_code("backspace"@) == Some(22u32),
        key_code("tab"@) == Some(23u32),
        key_code("return"@) == Some(36u32),
        key_code("space"@) == Some((typed_code(' ')->0).0),
        key_code("enter"@) == key_code("return"@),
        key_code("esc"@) == key_code("escape"@),
        key_code("del"@) == key_code("delete"@),
        key_code("page_up"@) == key_code("pageup"@),
        key_code("page_down"@) == key_code("pagedown"@),
{
    names_are_spelled();
}

/// The modifier keys have several names; shift is the key that is held for capital letters.
pub proof fn modifiers_are_on_the_layout()
    ensures
        modifier_code("ctrl"@) == Some(37u32),
        modifier_code("control"@) == Some(37u32),
        modifier_code("alt"@) == Some(64u32),
        modifier_code("shift"@) == Some(KEY_LEFT_SHIFT),
        modifier_code("super"@) == Some(133u32),
        modifier_code("win"@) == Some(133u32),
        modifier_code("meta"@) == Some(133u32),
        KEY_LEFT_SHIFT == 50,
{
    reveal_strlit("ctrl");
    reveal_strlit("control");
    reveal_strlit("alt");
    reveal_strlit("shift");
    reveal_strlit("super");
    reveal_strlit("win");
    reveal_strlit("meta");
    assert("ctrl"@.len() == 4 && "ctrl"@[0] == 'c' && "ctrl"@[1] == 't' && "ctrl"@[3] == 'l');
    assert("control"@.len() == 7 && "control"@[0] == 'c' && "control"@[1] == 'o' && "control"@[6] == 'l');
    assert("alt"@.len() == 3 && "alt"@[0] == 'a' && "alt"@[1] == 'l' && "alt"@[2] == 't');
    assert("shift"@.len() == 5 && "shift"@[0] == 's' && "shift"@[1] == 'h' && "shift"@[4] == 't');
    assert("super"@.len() == 5 && "super"@[0] == 's' && "super"@[1] == 'u' && "super"@[4] == 'r');
    assert("win"@.len() == 3 && "win"@[0] == 'w' && "win"@[1] == 'i' && "win"@[2] == 'n');
    assert("meta"@.len() == 4 && "meta"@[0] == 'm' && "meta"@[1] == 'e' && "meta"@[3] == 'a');
}

/// A character is typed by pressing and releasing its key, with the left shift key around it if it
/// needs shift. A character that the layout lacks is not typed.
pub proof fn characters_are_typed_with_their_keys(c: char)
    ensures
        match typed_code(c) {
            Some((keycode, false)) => typing(seq![c]) == seq![
                seq![
                    KeyEvent { keycode, state: KeyState::Pressed },
                    KeyEvent { keycode, state: KeyState::Released },
                ],
            ],
            Some((keycode, true)) => typing(seq![c]) == seq![
                seq![
                    KeyEvent { keycode: 50, state: KeyState::Pressed },
                    KeyEvent { keycode, state: KeyState::Pressed },
                    KeyEvent { keycode, state: KeyState::Released },
                    KeyEvent { keycode: 50, state: KeyState::Released },
                ],
            ],
            None => typing(seq![c]) == Seq::<Seq<KeyEvent>>::empty(),
        },
{
    reveal_with_fuel(typing, 2);
    assert(seq![c].drop_last() =~= Seq::<char>::empty());
    if let Some((keycode, shift)) = typed_code(c) {
        let down = KeyEvent { keycode, state: KeyState::Pressed };
        let up = KeyEvent { keycode, state: KeyState::Released };
        if shift {
            assert(typed_stroke(keycode, shift) =~= seq![
                KeyEvent { keycode: 50, state: KeyState::Pressed },
                down,
                up,
                KeyEvent { keycode: 50, state: KeyState::Released },
            ]);
        } else {
            assert(typed_stroke(keycode, shift) =~= seq![down, up]);
        }
        assert(typing(seq![c]) =~= seq![typed_stroke(keycode, shift)]);
    }
}

/// A combination of one part is a press and a release of its key; there is none for an unknown key.
pub proof fn single_keys_are_pressed(name: Seq<char>)
    ensures
        combination(seq![name]) == match key_code(name) {
            Some(keycode) => Some(
                seq![
                    KeyEvent { keycode, state: KeyState::Pressed },
                    KeyEvent { keycode, state: KeyState::Released },
                ],
            ),
            None => None,
        },
{
    assert(seq![name].drop_last() =~= Seq::<Seq<char>>::empty());
    if let Some(keycode) = key_code(name) {
        assert(stroke(Seq::<u32>::empty(), keycode) =~= seq![
            KeyEvent { keycode, state: KeyState::Pressed },
            KeyEvent { keycode, state: KeyState::Released },
        ]);
    }
}

proof fn first_modifier_comes_first(name: Seq<char>, names: Seq<Seq<char>>)
    ensures
        modifier_codes(seq![name] + names) == match modifier_code(name) {
            Some(code) => seq![code] + modifier_codes(names),
            None => modifier_codes(names),
        },
    decreases names.len(),
{
    reveal_with_fuel(modifier_codes, 2);
    let all = seq![name] + names;
    if names.len() == 0 {
        assert(all =~= seq![name]);
        assert(all.drop_last() =~= Seq::<Seq<char>>::empty());
        assert(modifier_codes(all) =~= match modifier_code(name) {
            Some(code) => seq![code] + modifier_codes(names),
            None => modifier_codes(names),
        });
    } else {
        assert(all.drop_last() =~= seq![name] + names.drop_last());
        first_modifier_comes_first(name, names.drop_last());
        assert(modifier_codes(all) =~= match modifier_code(name) {
            Some(code) => seq![code] + modifier_codes(names),
            None => modifier_codes(names),
        });
    }
}

/// A modifier in front of a combination is pressed before everything else and released after it. A
/// name in front that is no modifier changes nothing.
pub proof fn modifiers_go_around(name: Seq<char>, parts: Seq<Seq<char>>)
    requires
        parts.len() > 0,
    ensures
        combination(seq![name] + parts) == match (modifier_code(name), combination(parts)) {
            (Some(code), Some(events)) => Some(
                seq![KeyEvent { keycode: code, state: KeyState::Pressed }] + events + seq![
                    KeyEvent { keycode: code, state: KeyState::Released },
                ],
            ),
            (_, events) => events,
        },
{
    let all = seq![name] + parts;
    let others = parts.drop_last();
    assert(all.last() == parts.last());
    assert(all.drop_last() =~= seq![name] + others);
    first_modifier_comes_first(name, others);
    if let Some(code) = modifier_code(name) {
        if let Some(keycode) = key_code(parts.last()) {
            let codes = modifier_codes(others);
            assert(stroke(seq![code] + codes, keycode) =~= seq![
                KeyEvent { keycode: code, state: KeyState::Pressed },
            ] + stroke(codes, keycode) + seq![
                KeyEvent { keycode: code, state: KeyState::Released },
            ]);
        }
    }
}

/// The parts of a combination are what stands between plus signs, with small letters.
pub proof fn combinations_are_split_at_plus_signs(name: Seq<char>, rest: Seq<char>)
    requires
        !name.contains('+'),
    ensures
        ascii_parts(name) == seq![ascii_lowered(name)],
        ascii_parts(name + seq!['+'] + rest) == seq![ascii_lowered(name)] + ascii_parts(rest),
{
    let lowered = ascii_lowered(name);
    if lowered.contains('+') {
        let i = lowered.index_of('+');
        assert(lowered[i] == '+');
        assert(name[i] == '+');
        assert(name.contains('+'));
    }
    assert(ascii_lowered(name + seq!['+'] + rest) =~= lowered + seq!['+'] + ascii_lowered(rest));
    crate::text::texts_are_split_at_separators(lowered, ascii_lowered(rest), '+');
}

/// Strokes are typed one after the other, each with its own events.
pub proof fn strokes_are_seen_in_order(strokes: Seq<Vec<KeyEvent>>, i: int)
    ensures
        strokes_view(strokes).len() == strokes.len(),
        0 <= i < strokes.len() ==> strokes_view(strokes)[i] == strokes[i]@,
{
}

} // verus!
