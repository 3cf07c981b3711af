//! Keys: which byte sequence a key sends to a session, and which keys the
//! multiplexer keeps for itself.

use vstd::prelude::*;

verus! {

/// A key of the keyboard.
#[derive(Debug, Clone, Copy, PartialEq, Eq, Structural)]
pub enum KeyCode {
    Escape,
    Back,
    Backtick,
    Key0,
    Key1,
    Key2,
    Key3,
    Key4,
    Key5,
    Key6,
    Key7,
    Key8,
    Key9,
    Minus,
    Equals,
    Backspace,
    Tab,
    KeyQ,
    KeyW,
    KeyE,
    KeyR,
    KeyT,
    KeyY,
    KeyU,
    KeyI,
    KeyO,
    KeyP,
    LBracket,
    RBracket,
    ReturnKey,
    KeyA,
    KeyS,
    KeyD,
    KeyF,
    KeyG,
    KeyH,
    KeyJ,
    KeyK,
    KeyL,
    Semicolon,
    Quote,
    Backslash,
    KeyZ,
    KeyX,
    KeyC,
    KeyV,
    KeyB,
    KeyN,
    KeyM,
    Comma,
    Period,
    Slash,
    Control,
    Alt,
    Shift,
    Logo,
    Space,
    Capslock,
    F1,
    F2,
    F3,
    F4,
    F5,
    F6,
    F7,
    F8,
    F9,
    F10,
    F11,
    F12,
    PrintScreen,
    ScrollLock,
    Pause,
    Insert,
    Delete,
    Home,
    End,
    PageUp,
    PageDown,
    Numpad0,
    Numpad1,
    Numpad2,
    Numpad3,
    Numpad4,
    Numpad5,
    Numpad6,
    Numpad7,
    Numpad8,
    Numpad9,
    NumpadEquals,
    NumpadSubtract,
    NumpadAdd,
    NumpadDecimal,
    NumpadMultiply,
    NumpadDivide,
    Numlock,
    NumpadEnter,
    ArrowUp,
    ArrowDown,
    ArrowLeft,
    ArrowRight,
    Unknown,
}

/// The modifier keys held down with a key.
#[derive(Debug, Clone, Copy, PartialEq, Eq, Structural)]
pub struct KeyModifiers {
    pub shift: bool,
    pub control: bool,
    pub alt: bool,
    pub logo: bool,
}

/// A key going down.
#[derive(Debug, Clone, Copy, PartialEq, Eq, Structural)]
pub struct KeyEvent {
    pub key_code: KeyCode,
    pub is_repeat: bool,
    pub modifiers: KeyModifiers,
}

impl KeyCode {
    /// The digit of a digit key from one to nine.
    pub open spec fn digit(self) -> Option<u32> {
        match self {
            KeyCode::Key1 => Some(1),
            KeyCode::Key2 => Some(2),
            KeyCode::Key3 => Some(3),
            KeyCode::Key4 => Some(4),
            KeyCode::Key5 => Some(5),
            KeyCode::Key6 => Some(6),
            KeyCode::Key7 => Some(7),
            KeyCode::Key8 => Some(8),
            KeyCode::Key9 => Some(9),
            _ => None,
        }
    }

    /// The place of a letter key in the alphabet, counted from one.
    pub open spec fn letter(self) -> Option<u8> {
        match self {
            KeyCode::KeyA => Some(1),
            KeyCode::KeyB => Some(2),
            KeyCode::KeyC => Some(3),
            KeyCode::KeyD => Some(4),
            KeyCode::KeyE => Some(5),
            KeyCode::KeyF => Some(6),
            KeyCode::KeyG => Some(7),
            KeyCode::KeyH => Some(8),
            KeyCode::KeyI => Some(9),
            KeyCode::KeyJ => Some(10),
            KeyCode::KeyK => Some(11),
            KeyCode::KeyL => Some(12),
            KeyCode::KeyM => Some(13),
            KeyCode::KeyN => Some(14),
            KeyCode::KeyO => Some(15),
            KeyCode::KeyP => Some(16),
            KeyCode::KeyQ => Some(17),
            KeyCode::KeyR => Some(18),
            KeyCode::KeyS => Some(19),
            KeyCode::KeyT => Some(20),
            KeyCode::KeyU => Some(21),
            KeyCode::KeyV => Some(22),
            KeyCode::KeyW => Some(23),
            KeyCode::KeyX => Some(24),
            KeyCode::KeyY => Some(25),
            KeyCode::KeyZ => Some(26),
            _ => None,
        }
    }

    /// The digit of a digit key from one to nine.
    pub fn to_digit(&self) -> (digit: Option<u32>)
        ensures
            digit == self.digit(),
            digit matches Some(d) ==> 1 <= d <= 9,
    {
        match self {
            KeyCode::Key1 => Some(1),
            KeyCode::Key2 => Some(2),
            KeyCode::Key3 => Some(3),
            KeyCode::Key4 => Some(4),
            KeyCode::Key5 => Some(5),
            KeyCode::Key6 => Some(6),
            KeyCode::Key7 => Some(7),
            KeyCode::Key8 => Some(8),
            KeyCode::Key9 => Some(9),
            _ => None,
        }
    }

    /// The place of a letter key in the alphabet, counted from one.
    pub fn to_letter(&self) -> (letter: Option<u8>)
        ensures
            letter == self.letter(),
            letter matches Some(place) ==> 1 <= place <= 26,
    {
        match self {
            KeyCode::KeyA => Some(1),
            KeyCode::KeyB => Some(2),
            KeyCode::KeyC => Some(3),
            KeyCode::KeyD => Some(4),
            KeyCode::KeyE => Some(5),
            KeyCode::KeyF => Some(6),
            KeyCode::KeyG => Some(7),
            KeyCode::KeyH => Some(8),
            KeyCode::KeyI => Some(9),
            KeyCode::KeyJ => Some(10),
            KeyCode::KeyK => Some(11),
            KeyCode::KeyL => Some(12),
            KeyCode::KeyM => Some(13),
            KeyCode::KeyN => Some(14),
            KeyCode::KeyO => Some(15),
            KeyCode::KeyP => Some(16),
            KeyCode::KeyQ => Some(17),
            KeyCode::KeyR => Some(18),
            KeyCode::KeyS => Some(19),
            KeyCode::KeyT => Some(20),
            KeyCode::KeyU => Some(21),
            KeyCode::KeyV => Some(22),
            KeyCode::KeyW => Some(23),
            KeyCode::KeyX => Some(24),
            KeyCode::KeyY => Some(25),
            KeyCode::KeyZ => Some(26),
            _ => None,
        }
    }
}

/// `ESC [ final`: a cursor or editing key.
pub open spec fn csi(last: u8) -> Seq<u8> {
    seq![0x1bu8, 0x5bu8, last]
}

/// `ESC O final`: one of the first four function keys.
pub open spec fn ss3(last: u8) -> Seq<u8> {
    seq![0x1bu8, 0x4fu8, last]
}

/// `ESC [ number ~`, the number in decimal: an editing or function key.
pub open spec fn csi_tilde(number: u8) -> Seq<u8> {
    if number < 10 {
        seq![0x1bu8, 0x5bu8, (0x30 + number) as u8, 0x7eu8]
    } else {
        seq![0x1bu8, 0x5bu8, (0x30 + number / 10) as u8, (0x30 + number % 10) as u8, 0x7eu8]
    }
}

/// The sequence of a key that means the same with every modifier.
pub open spec fn plain_key_bytes(code: KeyCode) -> Option<Seq<u8>> {
    match code {
        KeyCode::Tab => Some(seq![0x09u8]),
        KeyCode::Escape => Some(seq![0x1bu8]),
        KeyCode::Backspace => Some(seq![0x7fu8]),
        KeyCode::Delete => Some(csi_tilde(3)),
        KeyCode::ArrowUp => Some(csi(0x41)),
        KeyCode::ArrowDown => Some(csi(0x42)),
        KeyCode::ArrowRight => Some(csi(0x43)),
        KeyCode::ArrowLeft => Some(csi(0x44)),
        KeyCode::Home => Some(csi(0x48)),
        KeyCode::End => Some(csi(0x46)),
        KeyCode::PageUp => Some(csi_tilde(5)),
        KeyCode::PageDown => Some(csi_tilde(6)),
        KeyCode::F1 => Some(ss3(0x50)),
        KeyCode::F2 => Some(ss3(0x51)),
        KeyCode::F3 => Some(ss3(0x52)),
        KeyCode::F4 => Some(ss3(0x53)),
        KeyCode::F5 => Some(csi_tilde(15)),
        KeyCode::F6 => Some(csi_tilde(17)),
        KeyCode::F7 => Some(csi_tilde(18)),
        KeyCode::F8 => Some(csi_tilde(19)),
        KeyCode::F9 => Some(csi_tilde(20)),
        KeyCode::F10 => Some(csi_tilde(21)),
        KeyCode::F11 => Some(csi_tilde(23)),
        KeyCode::F12 => Some(csi_tilde(24)),
        _ => None,
    }
}

/// A letter that the multiplexer keeps for its own shortcuts with the
/// control key: Q, S, T and W.
pub open spec fn reserved_letter(place: u8) -> bool {
    place == 17 || place == 19 || place == 20 || place == 23
}

/// The bytes that a key sends to a session: the sequence of a cursor,
/// editing or function key; for a letter held with control, unless the
/// letter is reserved, the control byte of its place in the alphabet; and
/// nothing for every other key, whose text arrives as text input.
pub open spec fn key_bytes(code: KeyCode, control: bool) -> Option<Seq<u8>> {
    match plain_key_bytes(code) {
        Some(bytes) => Some(bytes),
        None => match code.letter() {
            Some(place) => if control && !reserved_letter(place) {
                Some(seq![place])
            } else {
                None
            },
            None => None,
        },
    }
}

/// The bytes of `csi(last)`.
fn csi_bytes(last: u8) -> (bytes: Vec<u8>)
    ensures
        bytes@ == csi(last),
{
    let bytes = vec![0x1bu8, 0x5bu8, last];
    assert(bytes@ =~= csi(last));
    bytes
}

/// The bytes of `ss3(last)`.
fn ss3_bytes(last: u8) -> (bytes: Vec<u8>)
    ensures
        bytes@ == ss3(last),
{
    let bytes = vec![0x1bu8, 0x4fu8, last];
    assert(bytes@ =~= ss3(last));
    bytes
}

/// The bytes of `csi_tilde(number)`.
fn csi_tilde_bytes(number: u8) -> (bytes: Vec<u8>)
    requires
        number < 100,
    ensures
        bytes@ == csi_tilde(number),
{
    let mut bytes: Vec<u8> = vec![0x1bu8, 0x5bu8];
    if number < 10 {
        bytes.push(0x30 + number);
    } else {
        bytes.push(0x30 + number / 10);
        bytes.push(0x30 + number % 10);
    }
    bytes.push(0x7e);
    assert(bytes@ =~= csi_tilde(number));
    bytes
}

/// The bytes of `plain_key_bytes(code)`.
fn plain_key_to_bytes(code: KeyCode) -> (bytes: Option<Vec<u8>>)
    ensures
        bytes is Some == plain_key_bytes(code) is Some,
        bytes matches Some(found) ==> plain_key_bytes(code) == Some(found@),
{
    match code {
        KeyCode::Tab => {
            let bytes = vec![0x09u8];
            assert(bytes@ =~= seq![0x09u8]);
            Some(bytes)
        },
        KeyCode::Escape => {
            let bytes = vec![0x1bu8];
            assert(bytes@ =~= seq![0x1bu8]);
            Some(bytes)
        },
        KeyCode::Backspace => {
            let bytes = vec![0x7fu8];
            assert(bytes@ =~= seq![0x7fu8]);
            Some(bytes)
        },
        KeyCode::Delete => Some(csi_tilde_bytes(3)),
        KeyCode::ArrowUp => Some(csi_bytes(0x41)),
        KeyCode::ArrowDown => Some(csi_bytes(0x42)),
        KeyCode::ArrowRight => Some(csi_bytes(0x43)),
        KeyCode::ArrowLeft => Some(csi_bytes(0x44)),
        KeyCode::Home => Some(csi_bytes(0x48)),
        KeyCode::End => Some(csi_bytes(0x46)),
        KeyCode::PageUp => Some(csi_tilde_bytes(5)),
        KeyCode::PageDown => Some(csi_tilde_bytes(6)),
        KeyCode::F1 => Some(ss3_bytes(0x50)),
        KeyCode::F2 => Some(ss3_bytes(0x51)),
        KeyCode::F3 => Some(ss3_bytes(0x52)),
        KeyCode::F4 => Some(ss3_bytes(0x53)),
        KeyCode::F5 => Some(csi_tilde_bytes(15)),
        KeyCode::F6 => Some(csi_tilde_bytes(17)),
        KeyCode::F7 => Some(csi_tilde_bytes(18)),
        KeyCode::F8 => Some(csi_tilde_bytes(19)),
        KeyCode::F9 => Some(csi_tilde_bytes(20)),
        KeyCode::F10 => Some(csi_tilde_bytes(21)),
        KeyCode::F11 => Some(csi_tilde_bytes(23)),
        KeyCode::F12 => Some(csi_tilde_bytes(24)),
        _ => None,
    }
}

/// The bytes that a key sends to a session, if it sends any.
pub fn key_to_bytes(key_event: &KeyEvent) -> (bytes: Option<Vec<u8>>)
    ensures
        bytes is Some == key_bytes(key_event.key_code, key_event.modifiers.control) is Some,
        bytes matches Some(found) ==> key_bytes(key_event.key_code, key_event.modifiers.control)
            == Some(found@),
{
    match plain_key_to_bytes(key_event.key_code) {
        Some(bytes) => Some(bytes),
        None => match key_event.key_code.to_letter() {
            Some(place) => {
                if key_event.modifiers.control && !(place == 17 || place == 19 || place == 20
                    || place == 23) {
                    let bytes = vec![place];
                    assert(bytes@ =~= seq![place]);
                    Some(bytes)
                } else {
                    None
                }
            },
            None => None,
        },
    }
}

/// What a key asks of the multiplexer.
#[derive(Debug, Clone, Copy, PartialEq, Eq, Structural)]
pub enum KeyAction {
    /// Enter: commit the line being composed and send a carriage return.
    CommitLine,
    /// Open a tab.
    NewTab,
    /// Close the active tab.
    CloseTab,
    /// Switch between the single view and the grid view.
    ToggleGrid,
    /// Leave the application.
    Quit,
    /// Show the focused session anew.
    Refresh,
    /// Have the shell clear its screen.
    ClearScreen,
    /// Scroll the focused session by so many lines.
    Scroll(i32),
    /// Make the tab with this number active.
    SwitchToTab(u32),
    /// A control combination that means nothing.
    Ignore,
    /// Send the key's bytes to the focused session.
    Forward,
}

/// What a key asks for. Enter commits; with control, T, W, S, Q and R are
/// the multiplexer's own commands, L with shift clears, a digit selects a
/// tab and every other key is dropped; the page keys scroll by five lines,
/// by ten with shift, up towards older output; every other key goes to the
/// session.
pub open spec fn key_action(code: KeyCode, modifiers: KeyModifiers) -> KeyAction {
    if code == KeyCode::ReturnKey {
        KeyAction::CommitLine
    } else if modifiers.control && code == KeyCode::KeyT {
        KeyAction::NewTab
    } else if modifiers.control && code == KeyCode::KeyW {
        KeyAction::CloseTab
    } else if modifiers.control && code == KeyCode::KeyS {
        KeyAction::ToggleGrid
    } else if modifiers.control && code == KeyCode::KeyQ {
        KeyAction::Quit
    } else if modifiers.control && code == KeyCode::KeyR {
        KeyAction::Refresh
    } else if modifiers.control && modifiers.shift && code == KeyCode::KeyL {
        KeyAction::ClearScreen
    } else if code == KeyCode::PageUp {
        KeyAction::Scroll(
            if modifiers.shift {
                (-10) as i32
            } else {
                (-5) as i32
            },
        )
    } else if code == KeyCode::PageDown {
        KeyAction::Scroll(
            if modifiers.shift {
                10
            } else {
                5
            },
        )
    } else if modifiers.control {
        match code.digit() {
            Some(number) => KeyAction::SwitchToTab(number),
            None => KeyAction::Ignore,
        }
    } else {
        KeyAction::Forward
    }
}

/// Computes `key_action`.
pub fn classify_key(key_event: &KeyEvent) -> (action: KeyAction)
    ensures
        action == key_action(key_event.key_code, key_event.modifiers),
{
    let modifiers = key_event.modifiers;
    match key_event.key_code {
        KeyCode::ReturnKey => KeyAction::CommitLine,
        KeyCode::KeyT if modifiers.control => KeyAction::NewTab,
        KeyCode::KeyW if modifiers.control => KeyAction::CloseTab,
        KeyCode::KeyS if modifiers.control => KeyAction::ToggleGrid,
        KeyCode::KeyQ if modifiers.control => KeyAction::Quit,
        KeyCode::KeyR if modifiers.control => KeyAction::Refresh,
        KeyCode::KeyL if modifiers.control && modifiers.shift => KeyAction::ClearScreen,
        KeyCode::PageUp => KeyAction::Scroll(
            if modifiers.shift {
                -10
            } else {
                -5
            },
        ),
        KeyCode::PageDown => KeyAction::Scroll(
            if modifiers.shift {
                10
            } else {
                5
            },
        ),
        code => {
            if modifiers.control {
                match code.to_digit() {
                    Some(number) => KeyAction::SwitchToTab(number),
                    None => KeyAction::Ignore,
                }
            } else {
                KeyAction::Forward
            }
        },
    }
}

} // verus!
