use anvil::keyboard::{
    do_keyboard_key, do_keyboard_type, key_events, keycode_for, plain_keycode, type_events,
    typed_keycode, KeyEvent, KeyState,
};

fn press(keycode: u32) -> KeyEvent {
    KeyEvent { keycode, state: KeyState::Pressed }
}

fn release(keycode: u32) -> KeyEvent {
    KeyEvent { keycode, state: KeyState::Released }
}

#[test]
fn letters_follow_the_physical_layout() {
    let row: Vec<Option<u32>> = "hello".chars().map(plain_keycode).collect();
    assert_eq!(row, vec![Some(43), Some(26), Some(46), Some(46), Some(32)]);
    assert_eq!(plain_keycode('A'), None);
    assert_eq!(plain_keycode('\u{e9}'), None);
}

#[test]
fn named_keys() {
    assert_eq!(keycode_for("return"), Some(36));
    assert_eq!(keycode_for("enter"), Some(36));
    assert_eq!(keycode_for("page_down"), Some(117));
    assert_eq!(keycode_for("f11"), Some(95));
    assert_eq!(keycode_for("f12"), Some(96));
    assert_eq!(keycode_for("a"), Some(38));
    assert_eq!(keycode_for("`"), Some(49));
    assert_eq!(keycode_for("ab"), None);
    assert_eq!(keycode_for(""), None);
    assert_eq!(keycode_for("\u{e9}"), None);
}

#[test]
fn typed_characters() {
    assert_eq!(typed_keycode(' '), Some((65, false)));
    assert_eq!(typed_keycode('z'), Some((52, false)));
    assert_eq!(typed_keycode('Z'), Some((52, true)));
    assert_eq!(typed_keycode('?'), Some((61, true)));
    assert_eq!(typed_keycode('|'), Some((51, true)));
    assert_eq!(typed_keycode('\n'), None);
}

#[test]
fn combinations_press_and_release_in_mirror_order() {
    assert_eq!(
        key_events("ctrl+alt+Delete"),
        Some(vec![press(37), press(64), press(119), release(119), release(64), release(37)])
    );
    assert_eq!(key_events("l"), Some(vec![press(46), release(46)]));
}

#[test]
fn letter_case_does_not_matter_in_combinations() {
    assert_eq!(key_events("CTRL+L"), key_events("ctrl+l"));
    assert_eq!(key_events("Shift+RETURN"), Some(vec![press(50), press(36), release(36), release(50)]));
    // The Kelvin sign is no letter of the keyboard, but its lower case is.
    assert_eq!(key_events("\u{212a}"), key_events("k"));
    // A part that is not ASCII leaves the case of the others alone.
    assert_eq!(key_events("\u{e9}+CTRL+L"), key_events("ctrl+l"));
}

#[test]
fn unknown_modifiers_are_left_out_and_unknown_keys_refused() {
    assert_eq!(key_events("hyper+l"), Some(vec![press(46), release(46)]));
    assert_eq!(key_events("ctrl+nothing"), None);
    assert_eq!(key_events("ctrl+"), None);
    assert_eq!(key_events(""), None);
}

#[test]
fn typing_skips_what_the_layout_lacks() {
    let strokes = type_events("aB\u{e9} ?");
    assert_eq!(
        strokes,
        vec![
            vec![press(38), release(38)],
            vec![press(50), press(56), release(56), release(50)],
            vec![press(65), release(65)],
            vec![press(50), press(61), release(61), release(50)],
        ]
    );
}

#[test]
fn typing_is_done_piece_by_piece() {
    let mut pieces = type_events("Hello ");
    pieces.extend(type_events("World"));
    assert_eq!(type_events("Hello World"), pieces);
}

#[test]
fn no_key_is_left_down() {
    let mut down: Vec<u32> = Vec::new();
    for event in type_events("Mixed CASE (and) ~signs~").concat() {
        match event.state {
            KeyState::Pressed => down.push(event.keycode),
            KeyState::Released => assert_eq!(down.pop(), Some(event.keycode)),
        }
    }
    assert!(down.is_empty());
}

#[test]
fn keys_and_typing_send_the_same_codes() {
    for c in "abcxyz0189/.,;'[]-=\\`".chars() {
        let code = typed_keycode(c).map(|typed| typed.0);
        assert_eq!(keycode_for(&c.to_string()), code);
        assert!(code.is_some());
    }
}

#[test]
fn the_window_under_the_pointer_gets_the_focus() {
    let plan = do_keyboard_key(true, Some(7), "ctrl+c");
    assert_eq!(plan.focus, Some(7));
    assert_eq!(plan.strokes, vec![vec![press(37), press(54), release(54), release(37)]]);
    let unknown = do_keyboard_key(true, Some(7), "nonsense");
    assert_eq!(unknown.focus, Some(7));
    assert!(unknown.strokes.is_empty());
    let typed = do_keyboard_type(true, None, "ok");
    assert_eq!(typed.focus, None);
    assert_eq!(typed.strokes.len(), 2);
}

#[test]
fn without_a_keyboard_nothing_happens() {
    let plan = do_keyboard_key(false, Some(7), "ctrl+c");
    assert_eq!(plan.focus, None);
    assert!(plan.strokes.is_empty());
    let typed = do_keyboard_type(false, Some(7), "ok");
    assert_eq!(typed.focus, None);
    assert!(typed.strokes.is_empty());
}
