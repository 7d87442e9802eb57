//! Key events as the terminal reports them, the equality under which two
//! events name the same key, and the text that names a key.
use vstd::prelude::*;
use vstd::string::*;
use crate::text::{char_text, decimal_text, u64_text, ascii_upper, to_ascii_uppercase};

verus! {

/// A media key.
#[derive(Clone, Copy, Debug, PartialEq, Eq, Structural)]
pub enum MediaKey {
    Play,
    Pause,
    PlayPause,
    Reverse,
    Stop,
    FastForward,
    Rewind,
    TrackNext,
    TrackPrevious,
    Record,
    LowerVolume,
    RaiseVolume,
    MuteVolume,
}

/// A modifier key pressed on its own.
#[derive(Clone, Copy, Debug, PartialEq, Eq, Structural)]
pub enum ModifierKey {
    LeftShift,
    LeftControl,
    LeftAlt,
    LeftSuper,
    LeftHyper,
    LeftMeta,
    RightShift,
    RightControl,
    RightAlt,
    RightSuper,
    RightHyper,
    RightMeta,
    IsoLevel3Shift,
    IsoLevel5Shift,
}

/// The key of a key event.
#[derive(Clone, Copy, Debug, PartialEq, Eq, Structural)]
pub enum KeyCode {
    Backspace,
    Enter,
    Left,
    Right,
    Up,
    Down,
    Home,
    End,
    PageUp,
    PageDown,
    Tab,
    BackTab,
    Delete,
    Insert,
    F(u8),
    Char(char),
    Null,
    Esc,
    CapsLock,
    ScrollLock,
    NumLock,
    PrintScreen,
    Pause,
    Menu,
    KeypadBegin,
    Media(MediaKey),
    Modifier(ModifierKey),
}

/// The modifier keys held during a key event, as bits: shift 1, control 2,
/// alt 4, super 8, hyper 16, meta 32.
#[derive(Clone, Copy, Debug, PartialEq, Eq, Structural)]
pub struct KeyModifiers {
    pub bits: u8,
}

/// Whether a key was pressed, held or released.
#[derive(Clone, Copy, Debug, PartialEq, Eq, Structural)]
pub enum KeyEventKind {
    Press,
    Repeat,
    Release,
}

/// A key event: the key, the modifiers, the kind and the keyboard state bits.
#[derive(Clone, Copy, Debug, PartialEq, Eq, Structural)]
pub struct KeyEvent {
    pub code: KeyCode,
    pub modifiers: KeyModifiers,
    pub kind: KeyEventKind,
    pub state: u8,
}

pub open spec fn no_modifiers() -> KeyModifiers {
    KeyModifiers { bits: 0 }
}

pub open spec fn shift_modifier() -> KeyModifiers {
    KeyModifiers { bits: 1 }
}

pub open spec fn control_modifier() -> KeyModifiers {
    KeyModifiers { bits: 2 }
}

pub open spec fn alt_modifier() -> KeyModifiers {
    KeyModifiers { bits: 4 }
}

impl KeyModifiers {
    /// No modifier held.
    pub fn none() -> (m: KeyModifiers)
        ensures
            m == no_modifiers(),
    {
        KeyModifiers { bits: 0 }
    }

    /// Shift held.
    pub fn shift() -> (m: KeyModifiers)
        ensures
            m == shift_modifier(),
    {
        KeyModifiers { bits: 1 }
    }

    /// Control held.
    pub fn control() -> (m: KeyModifiers)
        ensures
            m == control_modifier(),
    {
        KeyModifiers { bits: 2 }
    }

    /// Alt held.
    pub fn alt() -> (m: KeyModifiers)
        ensures
            m == alt_modifier(),
    {
        KeyModifiers { bits: 4 }
    }

    pub open spec fn has_shift(self) -> bool {
        self.bits % 2 == 1
    }

    /// The same modifiers with shift added.
    pub open spec fn with_shift(self) -> KeyModifiers {
        if self.has_shift() {
            self
        } else {
            KeyModifiers { bits: (self.bits + 1) as u8 }
        }
    }
}

impl KeyEvent {
    /// A key press with the given key and modifiers and no keyboard state.
    pub fn new(code: KeyCode, modifiers: KeyModifiers) -> (e: KeyEvent)
        ensures
            e == press(code, modifiers),
    {
        KeyEvent { code, modifiers, kind: KeyEventKind::Press, state: 0 }
    }
}

/// A key press with no keyboard state.
pub open spec fn press(code: KeyCode, modifiers: KeyModifiers) -> KeyEvent {
    KeyEvent { code, modifiers, kind: KeyEventKind::Press, state: 0 }
}

/// A character in `A`..`Z`.
pub open spec fn is_ascii_upper(c: char) -> bool {
    65 <= (c as u32) <= 90
}

/// The event with the case of a character key and the shift modifier made to
/// agree: an upper-case letter gets shift, and a character held with shift
/// becomes its ASCII upper case.
pub open spec fn normalized(e: KeyEvent) -> KeyEvent {
    match e.code {
        KeyCode::Char(c) => {
            if is_ascii_upper(c) {
                KeyEvent { modifiers: e.modifiers.with_shift(), ..e }
            } else if e.modifiers.has_shift() {
                KeyEvent { code: KeyCode::Char(ascii_upper(c)), ..e }
            } else {
                e
            }
        },
        _ => e,
    }
}

/// Two events name the same key: their normalized forms are equal.
pub open spec fn same_key(a: KeyEvent, b: KeyEvent) -> bool {
    normalized(a) == normalized(b)
}

/// The normalized form of an event.
pub fn normalize(e: &KeyEvent) -> (r: KeyEvent)
    ensures
        r == normalized(*e),
{
    match e.code {
        KeyCode::Char(c) => {
            if 'A' <= c && c <= 'Z' {
                let bits: u8 = if e.modifiers.bits % 2 == 1 {
                    e.modifiers.bits
                } else {
                    e.modifiers.bits + 1
                };
                KeyEvent { modifiers: KeyModifiers { bits }, ..*e }
            } else if e.modifiers.bits % 2 == 1 {
                KeyEvent { code: KeyCode::Char(to_ascii_uppercase(c)), ..*e }
            } else {
                *e
            }
        },
        _ => *e,
    }
}

/// Whether two events name the same key.
pub fn keys_match(a: &KeyEvent, b: &KeyEvent) -> (r: bool)
    ensures
        r == same_key(*a, *b),
{
    let na = normalize(a);
    let nb = normalize(b);
    na == nb
}

/// Normalizing twice changes nothing more than normalizing once.
pub proof fn lemma_normalized_idempotent(e: KeyEvent)
    ensures
        normalized(normalized(e)) == normalized(e),
{
}

/// Naming the same key is an equivalence relation.
pub proof fn lemma_same_key_equivalence(a: KeyEvent, b: KeyEvent, c: KeyEvent)
    ensures
        same_key(a, a),
        same_key(a, b) ==> same_key(b, a),
        same_key(a, b) && same_key(b, c) ==> same_key(a, c),
{
}

/// An upper-case letter pressed without modifiers names the same key as the
/// same letter reported with shift, and as its lower case reported with shift.
pub proof fn lemma_shifted_letters(c: char, m: KeyModifiers)
    requires
        is_ascii_upper(c),
        m == shift_modifier(),
    ensures
        same_key(press(KeyCode::Char(c), no_modifiers()), press(KeyCode::Char(c), m)),
        same_key(
            press(KeyCode::Char(c), no_modifiers()),
            press(KeyCode::Char(((c as u32) + 32) as char), m),
        ),
{
}

/// The text before a key's name for its modifiers.
pub open spec fn modifier_prefix(m: KeyModifiers) -> Seq<char> {
    if m.bits == 2 {
        "Ctrl+"@
    } else if m.bits == 4 {
        "Alt+"@
    } else if m.bits == 1 {
        "Shift+"@
    } else {
        ""@
    }
}

/// The name of a media key.
pub open spec fn media_key_name(k: MediaKey) -> Seq<char> {
    match k {
        MediaKey::Play => "Play"@,
        MediaKey::Pause => "Pause"@,
        MediaKey::PlayPause => "PlayPause"@,
        MediaKey::Reverse => "Reverse"@,
        MediaKey::Stop => "Stop"@,
        MediaKey::FastForward => "FastForward"@,
        MediaKey::Rewind => "Rewind"@,
        MediaKey::TrackNext => "TrackNext"@,
        MediaKey::TrackPrevious => "TrackPrevious"@,
        MediaKey::Record => "Record"@,
        MediaKey::LowerVolume => "LowerVolume"@,
        MediaKey::RaiseVolume => "RaiseVolume"@,
        MediaKey::MuteVolume => "MuteVolume"@,
    }
}

/// The name of a modifier key.
pub open spec fn modifier_key_name(k: ModifierKey) -> Seq<char> {
    match k {
        ModifierKey::LeftShift => "LeftShift"@,
        ModifierKey::LeftControl => "LeftControl"@,
        ModifierKey::LeftAlt => "LeftAlt"@,
        ModifierKey::LeftSuper => "LeftSuper"@,
        ModifierKey::LeftHyper => "LeftHyper"@,
        ModifierKey::LeftMeta => "LeftMeta"@,
        ModifierKey::RightShift => "RightShift"@,
        ModifierKey::RightControl => "RightControl"@,
        ModifierKey::RightAlt => "RightAlt"@,
        ModifierKey::RightSuper => "RightSuper"@,
        ModifierKey::RightHyper => "RightHyper"@,
        ModifierKey::RightMeta => "RightMeta"@,
        ModifierKey::IsoLevel3Shift => "IsoLevel3Shift"@,
        ModifierKey::IsoLevel5Shift => "IsoLevel5Shift"@,
    }
}

/// The text that names a key: the character itself, a short name for Enter,
/// Escape, Backspace and the arrows, and otherwise the key's variant as
/// debug output shows it (`Home`, `F(5)`, `Media(Play)`).
pub open spec fn key_code_text(code: KeyCode) -> Seq<char> {
    match code {
        KeyCode::Char(c) => seq![c],
        KeyCode::Enter => "Enter"@,
        KeyCode::Esc => "Escape"@,
        KeyCode::Backspace => "Backspace"@,
        KeyCode::Up => "Up"@,
        KeyCode::Down => "Down"@,
        KeyCode::Left => "Left"@,
        KeyCode::Right => "Right"@,
        KeyCode::Home => "Home"@,
        KeyCode::End => "End"@,
        KeyCode::PageUp => "PageUp"@,
        KeyCode::PageDown => "PageDown"@,
        KeyCode::Tab => "Tab"@,
        KeyCode::BackTab => "BackTab"@,
        KeyCode::Delete => "Delete"@,
        KeyCode::Insert => "Insert"@,
        KeyCode::F(n) => "F("@ + decimal_text(n as nat) + ")"@,
        KeyCode::Null => "Null"@,
        KeyCode::CapsLock => "CapsLock"@,
        KeyCode::ScrollLock => "ScrollLock"@,
        KeyCode::NumLock => "NumLock"@,
        KeyCode::PrintScreen => "PrintScreen"@,
        KeyCode::Pause => "Pause"@,
        KeyCode::Menu => "Menu"@,
        KeyCode::KeypadBegin => "KeypadBegin"@,
        KeyCode::Media(m) => "Media("@ + media_key_name(m) + ")"@,
        KeyCode::Modifier(m) => "Modifier("@ + modifier_key_name(m) + ")"@,
    }
}

/// The text that names a key event: modifier prefix, then the key.
pub open spec fn key_event_text(e: KeyEvent) -> Seq<char> {
    modifier_prefix(e.modifiers) + key_code_text(e.code)
}

fn modifier_prefix_str(m: KeyModifiers) -> (r: &'static str)
    ensures
        r@ == modifier_prefix(m),
{
    if m.bits == 2 {
        "Ctrl+"
    } else if m.bits == 4 {
        "Alt+"
    } else if m.bits == 1 {
        "Shift+"
    } else {
        ""
    }
}

fn media_key_str(k: MediaKey) -> (r: &'static str)
    ensures
        r@ == media_key_name(k),
{
    match k {
        MediaKey::Play => "Play",
        MediaKey::Pause => "Pause",
        MediaKey::PlayPause => "PlayPause",
        MediaKey::Reverse => "Reverse",
        MediaKey::Stop => "Stop",
        MediaKey::FastForward => "FastForward",
        MediaKey::Rewind => "Rewind",
        MediaKey::TrackNext => "TrackNext",
        MediaKey::TrackPrevious => "TrackPrevious",
        MediaKey::Record => "Record",
        MediaKey::LowerVolume => "LowerVolume",
        MediaKey::RaiseVolume => "RaiseVolume",
        MediaKey::MuteVolume => "MuteVolume",
    }
}

fn modifier_key_str(k: ModifierKey) -> (r: &'static str)
    ensures
        r@ == modifier_key_name(k),
{
    match k {
        ModifierKey::LeftShift => "LeftShift",
        ModifierKey::LeftControl => "LeftControl",
        ModifierKey::LeftAlt => "LeftAlt",
        ModifierKey::LeftSuper => "LeftSuper",
        ModifierKey::LeftHyper => "LeftHyper",
        ModifierKey::LeftMeta => "LeftMeta",
        ModifierKey::RightShift => "RightShift",
        ModifierKey::RightControl => "RightControl",
        ModifierKey::RightAlt => "RightAlt",
        ModifierKey::RightSuper => "RightSuper",
        ModifierKey::RightHyper => "RightHyper",
        ModifierKey::RightMeta => "RightMeta",
        ModifierKey::IsoLevel3Shift => "IsoLevel3Shift",
        ModifierKey::IsoLevel5Shift => "IsoLevel5Shift",
    }
}

fn wrapped_name(head: &str, inner: &str) -> (r: String)
    ensures
        r@ == head@ + inner@ + ")"@,
{
    let mut s = String::from_str(head);
    s.append(inner);
    s.append(")");
    s
}

/// The text that names a key.
pub fn key_code_to_string(code: KeyCode) -> (r: String)
    ensures
        r@ == key_code_text(code),
{
    match code {
        KeyCode::Char(c) => char_text(c),
        KeyCode::Enter => String::from_str("Enter"),
        KeyCode::Esc => String::from_str("Escape"),
        KeyCode::Backspace => String::from_str("Backspace"),
        KeyCode::Up => String::from_str("Up"),
        KeyCode::Down => String::from_str("Down"),
        KeyCode::Left => String::from_str("Left"),
        KeyCode::Right => String::from_str("Right"),
        KeyCode::Home => String::from_str("Home"),
        KeyCode::End => String::from_str("End"),
        KeyCode::PageUp => String::from_str("PageUp"),
        KeyCode::PageDown => String::from_str("PageDown"),
        KeyCode::Tab => String::from_str("Tab"),
        KeyCode::BackTab => String::from_str("BackTab"),
        KeyCode::Delete => String::from_str("Delete"),
        KeyCode::Insert => String::from_str("Insert"),
        KeyCode::F(n) => {
            let digits = u64_text(n as u64);
            wrapped_name("F(", digits.as_str())
        },
        KeyCode::Null => String::from_str("Null"),
        KeyCode::CapsLock => String::from_str("CapsLock"),
        KeyCode::ScrollLock => String::from_str("ScrollLock"),
        KeyCode::NumLock => String::from_str("NumLock"),
        KeyCode::PrintScreen => String::from_str("PrintScreen"),
        KeyCode::Pause => String::from_str("Pause"),
        KeyCode::Menu => String::from_str("Menu"),
        KeyCode::KeypadBegin => String::from_str("KeypadBegin"),
        KeyCode::Media(m) => wrapped_name("Media(", media_key_str(m)),
        KeyCode::Modifier(m) => wrapped_name("Modifier(", modifier_key_str(m)),
    }
}

/// The text that names a key event, as the help page shows it: `Ctrl+`,
/// `Alt+` or `Shift+` when exactly that modifier is held, then the key.
pub fn key_event_to_string(key_event: &KeyEvent) -> (r: String)
    ensures
        r@ == key_event_text(*key_event),
{
    let mut s = String::from_str(modifier_prefix_str(key_event.modifiers));
    let key = key_code_to_string(key_event.code);
    s.append(key.as_str());
    s
}

} // verus!
