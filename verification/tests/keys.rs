use c3_tui::keys::{
    key_code_to_string, key_event_to_string, keys_match, normalize, KeyCode, KeyEvent, KeyEventKind,
    KeyModifiers, MediaKey, ModifierKey,
};

fn key(code: KeyCode, bits: u8) -> KeyEvent {
    KeyEvent::new(code, KeyModifiers { bits })
}

#[test]
fn key_text_plain_character() {
    assert_eq!(key_event_to_string(&key(KeyCode::Char('a'), 0)), "a");
}

#[test]
fn key_text_modifier_prefixes() {
    assert_eq!(key_event_to_string(&key(KeyCode::Char('z'), 2)), "Ctrl+z");
    assert_eq!(key_event_to_string(&key(KeyCode::Enter, 4)), "Alt+Enter");
    assert_eq!(key_event_to_string(&key(KeyCode::Up, 1)), "Shift+Up");
    // two modifiers at once: no prefix
    assert_eq!(key_event_to_string(&key(KeyCode::Char('x'), 3)), "x");
    // super alone: no prefix
    assert_eq!(key_event_to_string(&key(KeyCode::Left, 8)), "Left");
}

#[test]
fn key_text_named_keys() {
    assert_eq!(key_event_to_string(&key(KeyCode::Esc, 0)), "Escape");
    assert_eq!(key_event_to_string(&key(KeyCode::Backspace, 0)), "Backspace");
    assert_eq!(key_event_to_string(&key(KeyCode::Down, 0)), "Down");
    assert_eq!(key_event_to_string(&key(KeyCode::Right, 0)), "Right");
}

#[test]
fn key_text_debug_names() {
    assert_eq!(key_event_to_string(&key(KeyCode::Home, 0)), "Home");
    assert_eq!(key_event_to_string(&key(KeyCode::End, 2)), "Ctrl+End");
    assert_eq!(key_code_to_string(KeyCode::F(5)), "F(5)");
    assert_eq!(key_code_to_string(KeyCode::F(12)), "F(12)");
    assert_eq!(key_code_to_string(KeyCode::Media(MediaKey::PlayPause)), "Media(PlayPause)");
    assert_eq!(key_code_to_string(KeyCode::Modifier(ModifierKey::IsoLevel3Shift)), "Modifier(IsoLevel3Shift)");
    assert_eq!(key_code_to_string(KeyCode::KeypadBegin), "KeypadBegin");
}

#[test]
fn key_text_matches_debug_output_for_every_named_key() {
    let codes = [
        KeyCode::Home, KeyCode::End, KeyCode::PageUp, KeyCode::PageDown, KeyCode::Tab, KeyCode::BackTab,
        KeyCode::Delete, KeyCode::Insert, KeyCode::F(1), KeyCode::Null, KeyCode::CapsLock,
        KeyCode::ScrollLock, KeyCode::NumLock, KeyCode::PrintScreen, KeyCode::Pause, KeyCode::Menu,
        KeyCode::KeypadBegin, KeyCode::Media(MediaKey::Play), KeyCode::Modifier(ModifierKey::RightMeta),
    ];
    for code in codes {
        assert_eq!(key_code_to_string(code), format!("{:?}", code));
    }
}

#[test]
fn upper_case_letter_matches_shifted_forms() {
    let plain = key(KeyCode::Char('W'), 0);
    assert!(keys_match(&plain, &key(KeyCode::Char('W'), 1)));
    assert!(keys_match(&plain, &key(KeyCode::Char('w'), 1)));
    assert!(!keys_match(&plain, &key(KeyCode::Char('w'), 0)));
    assert!(!keys_match(&plain, &key(KeyCode::Char('W'), 2)));
}

#[test]
fn normalize_adds_shift_and_upper_case() {
    assert_eq!(normalize(&key(KeyCode::Char('Q'), 2)), key(KeyCode::Char('Q'), 3));
    assert_eq!(normalize(&key(KeyCode::Char('q'), 1)), key(KeyCode::Char('Q'), 1));
    assert_eq!(normalize(&key(KeyCode::Char('?'), 1)), key(KeyCode::Char('?'), 1));
    assert_eq!(normalize(&key(KeyCode::Enter, 1)), key(KeyCode::Enter, 1));
    let once = normalize(&key(KeyCode::Char('j'), 5));
    assert_eq!(normalize(&once), once);
}

#[test]
fn kind_and_state_take_part_in_matching() {
    let press = key(KeyCode::Char('j'), 0);
    let release = KeyEvent { kind: KeyEventKind::Release, ..press };
    let keypad = KeyEvent { state: 1, ..press };
    assert!(!keys_match(&press, &release));
    assert!(!keys_match(&press, &keypad));
    assert!(keys_match(&press, &press));
}
