use tvterm::control::{
    key_action, on_user_event, on_window_event, InputState, KeyAction, WindowInput, INITIAL_COLS,
    INITIAL_ROWS,
};
use tvterm::input::{
    csi_mod, maybe_alt, modifier_param, named_key_sequence, ss3_or_csi, tilde_mod, translate_key, Key,
    Modifiers, NamedKey,
};
use tvterm::UserEvent;

fn mods(ctrl: bool, alt: bool, shift: bool) -> Modifiers {
    Modifiers { ctrl, alt, shift }
}

fn none() -> Modifiers {
    mods(false, false, false)
}

fn ch(s: &str) -> Key {
    Key::Character(s.to_string())
}

fn named(k: NamedKey, m: Modifiers) -> Option<Vec<u8>> {
    translate_key(&Key::Named(k), m)
}

#[test]
fn plain_text_is_sent_as_utf8() {
    assert_eq!(translate_key(&ch("a"), none()), Some(b"a".to_vec()));
    assert_eq!(translate_key(&ch("é"), none()), Some(vec![0xc3, 0xa9]));
    assert_eq!(translate_key(&ch("hi"), mods(false, false, true)), Some(b"hi".to_vec()));
}

#[test]
fn ctrl_letters_send_control_codes() {
    assert_eq!(translate_key(&ch("a"), mods(true, false, false)), Some(vec![1]));
    assert_eq!(translate_key(&ch("A"), mods(true, false, false)), Some(vec![1]));
    assert_eq!(translate_key(&ch("z"), mods(true, false, false)), Some(vec![26]));
    assert_eq!(translate_key(&ch("c"), mods(true, true, false)), Some(vec![0x1b, 3]));
}

#[test]
fn ctrl_symbols_send_control_codes() {
    let c = mods(true, false, false);
    assert_eq!(translate_key(&ch("["), c), Some(vec![0x1b]));
    assert_eq!(translate_key(&ch("3"), c), Some(vec![0x1b]));
    assert_eq!(translate_key(&ch("\\"), c), Some(vec![0x1c]));
    assert_eq!(translate_key(&ch("]"), c), Some(vec![0x1d]));
    assert_eq!(translate_key(&ch("6"), c), Some(vec![0x1e]));
    assert_eq!(translate_key(&ch("/"), c), Some(vec![0x1f]));
    assert_eq!(translate_key(&ch("@"), c), Some(vec![0x00]));
    assert_eq!(translate_key(&ch(" "), c), Some(vec![0x00]));
    assert_eq!(translate_key(&ch("."), c), Some(b".".to_vec()));
}

#[test]
fn ctrl_with_empty_text_sends_nothing() {
    assert_eq!(translate_key(&ch(""), mods(true, false, false)), None);
    assert_eq!(translate_key(&ch(""), none()), Some(vec![]));
}

#[test]
fn ctrl_shift_sends_the_text() {
    assert_eq!(translate_key(&ch("A"), mods(true, false, true)), Some(b"A".to_vec()));
}

#[test]
fn alt_prefixes_escape() {
    assert_eq!(translate_key(&ch("x"), mods(false, true, false)), Some(vec![0x1b, b'x']));
    assert_eq!(maybe_alt(true, b"ab"), vec![0x1b, b'a', b'b']);
    assert_eq!(maybe_alt(false, b"ab"), b"ab".to_vec());
    for text in ["q", "é", "[", "7", ""] {
        for ctrl in [false, true] {
            for shift in [false, true] {
                let with = translate_key(&ch(text), mods(ctrl, true, shift));
                let without = translate_key(&ch(text), mods(ctrl, false, shift));
                assert_eq!(with, without.map(|b| [vec![0x1b], b].concat()));
            }
        }
    }
}

#[test]
fn modifier_parameter_values() {
    assert_eq!(modifier_param(none()), None);
    assert_eq!(modifier_param(mods(false, false, true)), Some(2));
    assert_eq!(modifier_param(mods(false, true, false)), Some(3));
    assert_eq!(modifier_param(mods(false, true, true)), Some(4));
    assert_eq!(modifier_param(mods(true, false, false)), Some(5));
    assert_eq!(modifier_param(mods(true, false, true)), Some(6));
    assert_eq!(modifier_param(mods(true, true, false)), Some(7));
    assert_eq!(modifier_param(mods(true, true, true)), Some(8));
}

#[test]
fn sequence_builders() {
    assert_eq!(csi_mod(b"A", None), b"\x1b[A".to_vec());
    assert_eq!(csi_mod(b"A", Some(5)), b"\x1b[1;5A".to_vec());
    assert_eq!(tilde_mod(5, None), b"\x1b[5~".to_vec());
    assert_eq!(tilde_mod(24, Some(2)), b"\x1b[24;2~".to_vec());
    assert_eq!(tilde_mod(200, Some(100)), b"\x1b[200;100~".to_vec());
    assert_eq!(ss3_or_csi(b"P", 11, None), b"\x1bOP".to_vec());
    assert_eq!(ss3_or_csi(b"P", 11, Some(3)), b"\x1b[11;3~".to_vec());
}

#[test]
fn editing_keys() {
    assert_eq!(named(NamedKey::Enter, none()), Some(b"\r".to_vec()));
    assert_eq!(named(NamedKey::Backspace, none()), Some(vec![0x7f]));
    assert_eq!(named(NamedKey::Backspace, mods(true, true, false)), Some(vec![0x08]));
    assert_eq!(named(NamedKey::Backspace, mods(false, true, false)), Some(vec![0x1b, 0x7f]));
    assert_eq!(named(NamedKey::Tab, none()), Some(b"\t".to_vec()));
    assert_eq!(named(NamedKey::Tab, mods(false, false, true)), Some(b"\x1b[Z".to_vec()));
    assert_eq!(named(NamedKey::Escape, mods(true, false, false)), Some(vec![0x1b]));
}

#[test]
fn cursor_keys() {
    assert_eq!(named(NamedKey::ArrowUp, none()), Some(b"\x1b[A".to_vec()));
    assert_eq!(named(NamedKey::ArrowDown, none()), Some(b"\x1b[B".to_vec()));
    assert_eq!(named(NamedKey::ArrowRight, mods(true, false, false)), Some(b"\x1b[1;5C".to_vec()));
    assert_eq!(named(NamedKey::ArrowLeft, mods(true, false, true)), Some(b"\x1b[1;6D".to_vec()));
    assert_eq!(named(NamedKey::Home, none()), Some(b"\x1b[H".to_vec()));
    assert_eq!(named(NamedKey::End, mods(false, true, false)), Some(b"\x1b[1;3F".to_vec()));
    assert_eq!(named(NamedKey::PageUp, none()), Some(b"\x1b[5~".to_vec()));
    assert_eq!(named(NamedKey::PageDown, mods(false, true, false)), Some(b"\x1b[6;3~".to_vec()));
    assert_eq!(named(NamedKey::Insert, none()), Some(b"\x1b[2~".to_vec()));
    assert_eq!(named(NamedKey::Delete, mods(true, true, true)), Some(b"\x1b[3;8~".to_vec()));
}

#[test]
fn function_keys() {
    assert_eq!(named(NamedKey::F1, none()), Some(b"\x1bOP".to_vec()));
    assert_eq!(named(NamedKey::F2, none()), Some(b"\x1bOQ".to_vec()));
    assert_eq!(named(NamedKey::F3, none()), Some(b"\x1bOR".to_vec()));
    assert_eq!(named(NamedKey::F4, none()), Some(b"\x1bOS".to_vec()));
    assert_eq!(named(NamedKey::F1, mods(false, false, true)), Some(b"\x1b[11;2~".to_vec()));
    assert_eq!(named(NamedKey::F5, none()), Some(b"\x1b[15~".to_vec()));
    assert_eq!(named(NamedKey::F6, none()), Some(b"\x1b[17~".to_vec()));
    assert_eq!(named(NamedKey::F10, none()), Some(b"\x1b[21~".to_vec()));
    assert_eq!(named(NamedKey::F11, none()), Some(b"\x1b[23~".to_vec()));
    assert_eq!(named(NamedKey::F12, mods(true, false, false)), Some(b"\x1b[24;5~".to_vec()));
}

#[test]
fn unknown_keys_send_nothing() {
    assert_eq!(named(NamedKey::Other, none()), None);
    assert_eq!(translate_key(&Key::Other, mods(true, true, true)), None);
    assert_eq!(named_key_sequence(NamedKey::Other, true, false, false), None);
}

#[test]
fn overlay_shortcut_toggles() {
    let cs = mods(true, false, true);
    assert!(matches!(key_action(true, &ch("O"), cs, true), KeyAction::ToggleOverlay));
    assert!(matches!(key_action(true, &ch("o"), cs, false), KeyAction::ToggleOverlay));
    assert!(matches!(key_action(false, &ch("O"), cs, false), KeyAction::Ignore));
    assert!(matches!(key_action(true, &ch("oo"), cs, false), KeyAction::Send(_)));
}

#[test]
fn consumed_and_released_keys_are_not_sent() {
    assert!(matches!(key_action(true, &ch("a"), none(), true), KeyAction::Ignore));
    assert!(matches!(key_action(false, &ch("a"), none(), false), KeyAction::Ignore));
    match key_action(true, &ch("a"), none(), false) {
        KeyAction::Send(b) => assert_eq!(b, b"a".to_vec()),
        _ => panic!("expected bytes"),
    }
}

#[test]
fn window_overlay_toggle_twice_restores() {
    let mut s = InputState::new();
    on_window_event(&mut s, WindowInput::ModifiersChanged(mods(true, false, true)), false, false);
    let r = on_window_event(&mut s, WindowInput::Keyboard { pressed: true, key: ch("O") }, false, false);
    assert!(s.overlay_visible);
    assert!(r.request_redraw);
    assert!(r.write.is_none());
    on_window_event(&mut s, WindowInput::Keyboard { pressed: true, key: ch("O") }, false, false);
    assert!(!s.overlay_visible);
}

#[test]
fn window_keyboard_writes_bytes() {
    let mut s = InputState::new();
    let r = on_window_event(
        &mut s,
        WindowInput::Keyboard { pressed: true, key: Key::Named(NamedKey::ArrowUp) },
        false,
        false,
    );
    assert_eq!(r.write, Some(b"\x1b[A".to_vec()));
    assert!(!r.request_redraw);
}

#[test]
fn window_resize_truncates_pty_size() {
    let mut s = InputState::new();
    let r = on_window_event(
        &mut s,
        WindowInput::Resized { width: 800, height: 600, grid: Some((70000, 5)) },
        false,
        false,
    );
    assert_eq!(r.resize_surface, Some((800, 600)));
    let g = r.resize_grid.unwrap();
    assert_eq!((g.cols, g.rows, g.pty_cols, g.pty_rows), (70000, 5, 4464, 5));
    assert!(r.request_redraw);
    let r = on_window_event(
        &mut s,
        WindowInput::Resized { width: 800, height: 600, grid: Some((0, 5)) },
        false,
        false,
    );
    assert!(r.resize_grid.is_none());
    let r = on_window_event(&mut s, WindowInput::Resized { width: 1, height: 1, grid: None }, false, false);
    assert!(r.resize_grid.is_none());
}

#[test]
fn window_wheel_close_and_redraw() {
    let mut s = InputState::new();
    let r = on_window_event(&mut s, WindowInput::MouseWheel { lines: -3 }, false, false);
    assert_eq!(r.scroll, Some(-3));
    let r = on_window_event(&mut s, WindowInput::MouseWheel { lines: -3 }, false, true);
    assert_eq!(r.scroll, None);
    let r = on_window_event(&mut s, WindowInput::MouseWheel { lines: 0 }, true, false);
    assert_eq!(r.scroll, None);
    assert!(r.request_redraw);
    let r = on_window_event(&mut s, WindowInput::CloseRequested, false, false);
    assert!(r.exit);
    let r = on_window_event(&mut s, WindowInput::RedrawRequested, false, false);
    assert!(r.render && !r.exit);
    let r = on_window_event(&mut s, WindowInput::Other, false, false);
    assert!(!r.render && !r.exit && !r.request_redraw);
}

#[test]
fn user_events() {
    let r = on_user_event(UserEvent::PtyOutput, true);
    assert!(r.request_redraw && !r.exit);
    let r = on_user_event(UserEvent::PtyOutput, false);
    assert!(!r.request_redraw && !r.exit);
    let r = on_user_event(UserEvent::PtyExited, true);
    assert!(r.exit && !r.request_redraw);
}

#[test]
fn initial_grid() {
    assert_eq!((INITIAL_COLS, INITIAL_ROWS), (80, 24));
}

#[test]
fn key_numbers_are_written_in_decimal() {
    for n in 0..=255u8 {
        let seq = tilde_mod(n, None);
        let digits = &seq[2..seq.len() - 1];
        assert!(digits.iter().all(|d| d.is_ascii_digit()));
        let text = std::str::from_utf8(digits).unwrap();
        assert_eq!(text.parse::<u8>().unwrap(), n);
        assert_eq!(text, n.to_string());
    }
}

#[test]
fn plain_o_does_not_toggle_overlay() {
    let mut s = InputState::new();
    let before = s;
    on_window_event(&mut s, WindowInput::Keyboard { pressed: true, key: ch("O") }, false, false);
    assert_eq!(s, before);
}
