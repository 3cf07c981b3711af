use modernterm::keys::{classify_key, key_to_bytes, KeyAction, KeyCode, KeyEvent, KeyModifiers};

fn plain(key_code: KeyCode) -> KeyEvent {
    KeyEvent {
        key_code,
        is_repeat: false,
        modifiers: KeyModifiers { shift: false, control: false, alt: false, logo: false },
    }
}

fn control(key_code: KeyCode) -> KeyEvent {
    KeyEvent {
        key_code,
        is_repeat: false,
        modifiers: KeyModifiers { shift: false, control: true, alt: false, logo: false },
    }
}

fn shift(key_code: KeyCode) -> KeyEvent {
    KeyEvent {
        key_code,
        is_repeat: false,
        modifiers: KeyModifiers { shift: true, control: false, alt: false, logo: false },
    }
}

fn control_shift(key_code: KeyCode) -> KeyEvent {
    KeyEvent {
        key_code,
        is_repeat: false,
        modifiers: KeyModifiers { shift: true, control: true, alt: false, logo: false },
    }
}

#[test]
fn editing_keys_send_their_bytes() {
    assert_eq!(key_to_bytes(&plain(KeyCode::Tab)), Some(b"\t".to_vec()));
    assert_eq!(key_to_bytes(&plain(KeyCode::Escape)), Some(b"\x1b".to_vec()));
    assert_eq!(key_to_bytes(&plain(KeyCode::Backspace)), Some(b"\x7f".to_vec()));
    assert_eq!(key_to_bytes(&plain(KeyCode::Delete)), Some(b"\x1b[3~".to_vec()));
}

#[test]
fn cursor_keys_send_their_sequences() {
    assert_eq!(key_to_bytes(&plain(KeyCode::ArrowUp)), Some(b"\x1b[A".to_vec()));
    assert_eq!(key_to_bytes(&plain(KeyCode::ArrowDown)), Some(b"\x1b[B".to_vec()));
    assert_eq!(key_to_bytes(&plain(KeyCode::ArrowRight)), Some(b"\x1b[C".to_vec()));
    assert_eq!(key_to_bytes(&plain(KeyCode::ArrowLeft)), Some(b"\x1b[D".to_vec()));
    assert_eq!(key_to_bytes(&plain(KeyCode::Home)), Some(b"\x1b[H".to_vec()));
    assert_eq!(key_to_bytes(&plain(KeyCode::End)), Some(b"\x1b[F".to_vec()));
    assert_eq!(key_to_bytes(&plain(KeyCode::PageUp)), Some(b"\x1b[5~".to_vec()));
    assert_eq!(key_to_bytes(&plain(KeyCode::PageDown)), Some(b"\x1b[6~".to_vec()));
}

#[test]
fn function_keys_send_their_sequences() {
    assert_eq!(key_to_bytes(&plain(KeyCode::F1)), Some(b"\x1bOP".to_vec()));
    assert_eq!(key_to_bytes(&plain(KeyCode::F2)), Some(b"\x1bOQ".to_vec()));
    assert_eq!(key_to_bytes(&plain(KeyCode::F3)), Some(b"\x1bOR".to_vec()));
    assert_eq!(key_to_bytes(&plain(KeyCode::F4)), Some(b"\x1bOS".to_vec()));
    assert_eq!(key_to_bytes(&plain(KeyCode::F5)), Some(b"\x1b[15~".to_vec()));
    assert_eq!(key_to_bytes(&plain(KeyCode::F6)), Some(b"\x1b[17~".to_vec()));
    assert_eq!(key_to_bytes(&plain(KeyCode::F7)), Some(b"\x1b[18~".to_vec()));
    assert_eq!(key_to_bytes(&plain(KeyCode::F8)), Some(b"\x1b[19~".to_vec()));
    assert_eq!(key_to_bytes(&plain(KeyCode::F9)), Some(b"\x1b[20~".to_vec()));
    assert_eq!(key_to_bytes(&plain(KeyCode::F10)), Some(b"\x1b[21~".to_vec()));
    assert_eq!(key_to_bytes(&plain(KeyCode::F11)), Some(b"\x1b[23~".to_vec()));
    assert_eq!(key_to_bytes(&plain(KeyCode::F12)), Some(b"\x1b[24~".to_vec()));
}

#[test]
fn control_letters_send_control_bytes() {
    let expected: [(KeyCode, u8); 22] = [
        (KeyCode::KeyA, 0x01),
        (KeyCode::KeyB, 0x02),
        (KeyCode::KeyC, 0x03),
        (KeyCode::KeyD, 0x04),
        (KeyCode::KeyE, 0x05),
        (KeyCode::KeyF, 0x06),
        (KeyCode::KeyG, 0x07),
        (KeyCode::KeyH, 0x08),
        (KeyCode::KeyI, 0x09),
        (KeyCode::KeyJ, 0x0a),
        (KeyCode::KeyK, 0x0b),
        (KeyCode::KeyL, 0x0c),
        (KeyCode::KeyM, 0x0d),
        (KeyCode::KeyN, 0x0e),
        (KeyCode::KeyO, 0x0f),
        (KeyCode::KeyP, 0x10),
        (KeyCode::KeyR, 0x12),
        (KeyCode::KeyU, 0x15),
        (KeyCode::KeyV, 0x16),
        (KeyCode::KeyX, 0x18),
        (KeyCode::KeyY, 0x19),
        (KeyCode::KeyZ, 0x1a),
    ];
    for (code, byte) in expected {
        assert_eq!(key_to_bytes(&control(code)), Some(vec![byte]), "{:?}", code);
        assert_eq!(key_to_bytes(&plain(code)), None, "{:?}", code);
    }
}

#[test]
fn reserved_control_letters_send_nothing() {
    for code in [KeyCode::KeyQ, KeyCode::KeyS, KeyCode::KeyT, KeyCode::KeyW] {
        assert_eq!(key_to_bytes(&control(code)), None, "{:?}", code);
    }
}

#[test]
fn text_keys_send_nothing() {
    for code in [KeyCode::Space, KeyCode::Key1, KeyCode::ReturnKey, KeyCode::Comma, KeyCode::Unknown] {
        assert_eq!(key_to_bytes(&plain(code)), None, "{:?}", code);
        assert_eq!(key_to_bytes(&control(code)), None, "{:?}", code);
    }
}

#[test]
fn digits_of_digit_keys() {
    assert_eq!(KeyCode::Key1.to_digit(), Some(1));
    assert_eq!(KeyCode::Key5.to_digit(), Some(5));
    assert_eq!(KeyCode::Key9.to_digit(), Some(9));
    assert_eq!(KeyCode::Key0.to_digit(), None);
    assert_eq!(KeyCode::KeyA.to_digit(), None);
    assert_eq!(KeyCode::Numpad1.to_digit(), None);
}

#[test]
fn letters_of_letter_keys() {
    assert_eq!(KeyCode::KeyA.to_letter(), Some(1));
    assert_eq!(KeyCode::KeyZ.to_letter(), Some(26));
    assert_eq!(KeyCode::Key1.to_letter(), None);
}

#[test]
fn shortcuts_are_classified() {
    assert_eq!(classify_key(&plain(KeyCode::ReturnKey)), KeyAction::CommitLine);
    assert_eq!(classify_key(&control(KeyCode::ReturnKey)), KeyAction::CommitLine);
    assert_eq!(classify_key(&control(KeyCode::KeyT)), KeyAction::NewTab);
    assert_eq!(classify_key(&control(KeyCode::KeyW)), KeyAction::CloseTab);
    assert_eq!(classify_key(&control(KeyCode::KeyS)), KeyAction::ToggleGrid);
    assert_eq!(classify_key(&control(KeyCode::KeyQ)), KeyAction::Quit);
    assert_eq!(classify_key(&control(KeyCode::KeyR)), KeyAction::Refresh);
    assert_eq!(classify_key(&control_shift(KeyCode::KeyL)), KeyAction::ClearScreen);
    assert_eq!(classify_key(&control(KeyCode::KeyL)), KeyAction::Ignore);
    assert_eq!(classify_key(&plain(KeyCode::KeyT)), KeyAction::Forward);
}

#[test]
fn page_keys_scroll() {
    assert_eq!(classify_key(&plain(KeyCode::PageUp)), KeyAction::Scroll(-5));
    assert_eq!(classify_key(&shift(KeyCode::PageUp)), KeyAction::Scroll(-10));
    assert_eq!(classify_key(&plain(KeyCode::PageDown)), KeyAction::Scroll(5));
    assert_eq!(classify_key(&shift(KeyCode::PageDown)), KeyAction::Scroll(10));
    assert_eq!(classify_key(&control(KeyCode::PageUp)), KeyAction::Scroll(-5));
}

#[test]
fn control_digits_switch_tabs() {
    assert_eq!(classify_key(&control(KeyCode::Key1)), KeyAction::SwitchToTab(1));
    assert_eq!(classify_key(&control(KeyCode::Key9)), KeyAction::SwitchToTab(9));
    assert_eq!(classify_key(&control(KeyCode::Key0)), KeyAction::Ignore);
    assert_eq!(classify_key(&control(KeyCode::KeyC)), KeyAction::Ignore);
    assert_eq!(classify_key(&plain(KeyCode::Key1)), KeyAction::Forward);
}
