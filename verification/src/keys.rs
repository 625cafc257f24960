//! Keys and input events, as plain values.
//!
//! An input source hands the dashboard one [`Event`] at a time. A binding
//! fires when its pattern *matches* the event. For key events the match
//! ignores how an upper-case letter was reported: `A` alone, `A` with shift
//! and `a` with shift are the same key press.

use vstd::prelude::*;

verus! {

/// A media key.
#[derive(Clone, Copy, Debug, PartialEq, Eq, Structural)]
pub enum MediaKeyCode {
    Play,
    Pause,
    PlayPause,
    Reverse,
    Stop,
    FastForward,
    Rewind,
    TrackNext,
    TrackPrevious,
    Record,
    LowerVolume,
    RaiseVolume,
    MuteVolume,
}

/// A modifier key reported as a key of its own.
#[derive(Clone, Copy, Debug, PartialEq, Eq, Structural)]
pub enum ModifierKeyCode {
    LeftShift,
    LeftControl,
    LeftAlt,
    LeftSuper,
    LeftHyper,
    LeftMeta,
    RightShift,
    RightControl,
    RightAlt,
    RightSuper,
    RightHyper,
    RightMeta,
    IsoLevel3Shift,
    IsoLevel5Shift,
}

/// A key of the keyboard.
#[derive(Clone, Copy, Debug, PartialEq, Eq, Structural)]
pub enum KeyCode {
    Backspace,
    Enter,
    Left,
    Right,
    Up,
    Down,
    Home,
    End,
    PageUp,
    PageDown,
    Tab,
    BackTab,
    Delete,
    Insert,
    /// A function key: `F(1)` is F1.
    F(u8),
    /// A character key.
    Char(char),
    Null,
    Esc,
    CapsLock,
    ScrollLock,
    NumLock,
    PrintScreen,
    Pause,
    Menu,
    KeypadBegin,
    Media(MediaKeyCode),
    Modifier(ModifierKeyCode),
}

/// The modifier keys held down with a key.
#[derive(Clone, Copy, Debug, PartialEq, Eq, Structural)]
pub struct KeyModifiers {
    pub shift: bool,
    pub control: bool,
    pub alt: bool,
    pub super_key: bool,
    pub hyper: bool,
    pub meta: bool,
}

/// Whether a key went down, is held, or came up.
#[derive(Clone, Copy, Debug, PartialEq, Eq, Structural)]
pub enum KeyEventKind {
    Press,
    Repeat,
    Release,
}

/// What else the terminal reported about a key event.
#[derive(Clone, Copy, Debug, PartialEq, Eq, Structural)]
pub struct KeyEventState {
    pub keypad: bool,
    pub caps_lock: bool,
    pub num_lock: bool,
}

/// One key event.
#[derive(Clone, Copy, Debug)]
pub struct KeyEvent {
    pub code: KeyCode,
    pub modifiers: KeyModifiers,
    pub kind: KeyEventKind,
    pub state: KeyEventState,
}

/// One input event.
#[derive(Clone, Copy, Debug)]
pub enum Event {
    FocusGained,
    FocusLost,
    Key(KeyEvent),
    Resize(u16, u16),
}

/// Whether `c` is one of `A` to `Z`.
pub open spec fn is_ascii_upper(c: char) -> bool {
    'A' <= c <= 'Z'
}

/// Whether `c` is one of `a` to `z`.
pub open spec fn is_ascii_lower(c: char) -> bool {
    'a' <= c <= 'z'
}

/// The upper-case form of an ASCII letter; any other character unchanged.
pub open spec fn ascii_upper(c: char) -> char {
    if is_ascii_lower(c) {
        ((c as u32) - 32) as char
    } else {
        c
    }
}

impl KeyModifiers {
    /// No modifier held.
    pub open spec fn spec_empty() -> KeyModifiers {
        KeyModifiers {
            shift: false,
            control: false,
            alt: false,
            super_key: false,
            hyper: false,
            meta: false,
        }
    }

    /// Shift alone.
    pub open spec fn spec_shift() -> KeyModifiers {
        KeyModifiers { shift: true, ..KeyModifiers::spec_empty() }
    }

    /// Control alone.
    pub open spec fn spec_control() -> KeyModifiers {
        KeyModifiers { control: true, ..KeyModifiers::spec_empty() }
    }

    /// No modifier held.
    #[verifier::when_used_as_spec(spec_empty)]
    pub fn empty() -> (m: KeyModifiers)
        ensures
            m == KeyModifiers::spec_empty(),
    {
        KeyModifiers {
            shift: false,
            control: false,
            alt: false,
            super_key: false,
            hyper: false,
            meta: false,
        }
    }

    /// Shift alone.
    #[verifier::when_used_as_spec(spec_shift)]
    pub fn shift() -> (m: KeyModifiers)
        ensures
            m == KeyModifiers::spec_shift(),
    {
        KeyModifiers {
            shift: true,
            control: false,
            alt: false,
            super_key: false,
            hyper: false,
            meta: false,
        }
    }

    /// Control alone.
    #[verifier::when_used_as_spec(spec_control)]
    pub fn control() -> (m: KeyModifiers)
        ensures
            m == KeyModifiers::spec_control(),
    {
        KeyModifiers {
            shift: false,
            control: true,
            alt: false,
            super_key: false,
            hyper: false,
            meta: false,
        }
    }
}

impl KeyEventState {
    /// Nothing reported.
    pub open spec fn spec_empty() -> KeyEventState {
        KeyEventState { keypad: false, caps_lock: false, num_lock: false }
    }

    /// Nothing reported.
    #[verifier::when_used_as_spec(spec_empty)]
    pub fn empty() -> (s: KeyEventState)
        ensures
            s == KeyEventState::spec_empty(),
    {
        KeyEventState { keypad: false, caps_lock: false, num_lock: false }
    }
}

impl KeyEvent {
    /// A press of `code` with `modifiers` held.
    pub open spec fn spec_new(code: KeyCode, modifiers: KeyModifiers) -> KeyEvent {
        KeyEvent {
            code,
            modifiers,
            kind: KeyEventKind::Press,
            state: KeyEventState::spec_empty(),
        }
    }

    /// A press of `code` with `modifiers` held.
    #[verifier::when_used_as_spec(spec_new)]
    pub fn new(code: KeyCode, modifiers: KeyModifiers) -> (e: KeyEvent)
        ensures
            e == KeyEvent::spec_new(code, modifiers),
    {
        KeyEvent { code, modifiers, kind: KeyEventKind::Press, state: KeyEventState::empty() }
    }

    /// The event with the case of a letter moved into one form: shift is set
    /// exactly when the letter is upper-case.
    pub open spec fn normalize_case(self) -> KeyEvent {
        match self.code {
            KeyCode::Char(c) => {
                if is_ascii_upper(c) {
                    KeyEvent {
                        modifiers: KeyModifiers { shift: true, ..self.modifiers },
                        ..self
                    }
                } else if self.modifiers.shift {
                    KeyEvent { code: KeyCode::Char(ascii_upper(c)), ..self }
                } else {
                    self
                }
            },
            _ => self,
        }
    }

    /// Two key events match when they are equal once the case of a letter is
    /// normalized.
    pub open spec fn spec_matches(self, other: KeyEvent) -> bool {
        self.normalize_case() == other.normalize_case()
    }

    fn normalized(self) -> (e: KeyEvent)
        ensures
            e == self.normalize_case(),
    {
        match self.code {
            KeyCode::Char(c) => {
                if 'A' <= c && c <= 'Z' {
                    KeyEvent {
                        code: self.code,
                        modifiers: KeyModifiers {
                            shift: true,
                            control: self.modifiers.control,
                            alt: self.modifiers.alt,
                            super_key: self.modifiers.super_key,
                            hyper: self.modifiers.hyper,
                            meta: self.modifiers.meta,
                        },
                        kind: self.kind,
                        state: self.state,
                    }
                } else if self.modifiers.shift {
                    KeyEvent {
                        code: KeyCode::Char(to_ascii_upper(c)),
                        modifiers: self.modifiers,
                        kind: self.kind,
                        state: self.state,
                    }
                } else {
                    self
                }
            },
            _ => self,
        }
    }

    /// Whether the two key events match.
    #[verifier::when_used_as_spec(spec_matches)]
    pub fn matches(self, other: KeyEvent) -> (r: bool)
        ensures
            r == self.spec_matches(other),
    {
        let a = self.normalized();
        let b = other.normalized();
        a.code == b.code && a.modifiers == b.modifiers && a.kind == b.kind && a.state == b.state
    }
}

/// The upper-case form of an ASCII letter; any other character unchanged.
pub fn to_ascii_upper(c: char) -> (r: char)
    ensures
        r == ascii_upper(c),
{
    if 'a' <= c && c <= 'z' {
        let n: u8 = c as u8;
        let up: u8 = n - 32;
        up as char
    } else {
        c
    }
}

impl Event {
    /// Whether a binding with pattern `self` fires on `other`.
    pub open spec fn spec_matches(self, other: Event) -> bool {
        match (self, other) {
            (Event::FocusGained, Event::FocusGained) => true,
            (Event::FocusLost, Event::FocusLost) => true,
            (Event::Key(a), Event::Key(b)) => a.spec_matches(b),
            (Event::Resize(c1, r1), Event::Resize(c2, r2)) => c1 == c2 && r1 == r2,
            _ => false,
        }
    }

    /// Whether a binding with pattern `self` fires on `other`.
    #[verifier::when_used_as_spec(spec_matches)]
    pub fn matches(self, other: Event) -> (r: bool)
        ensures
            r == self.spec_matches(other),
    {
        match (self, other) {
            (Event::FocusGained, Event::FocusGained) => true,
            (Event::FocusLost, Event::FocusLost) => true,
            (Event::Key(a), Event::Key(b)) => a.matches(b),
            (Event::Resize(c1, r1), Event::Resize(c2, r2)) => c1 == c2 && r1 == r2,
            _ => false,
        }
    }
}

impl PartialEq for KeyEvent {
    /// Equality of key events is the match of one with the other.
    fn eq(&self, other: &KeyEvent) -> (r: bool) {
        self.matches(*other)
    }
}

impl Eq for KeyEvent {

}

impl vstd::std_specs::cmp::PartialEqSpecImpl for KeyEvent {
    open spec fn obeys_eq_spec() -> bool {
        true
    }

    open spec fn eq_spec(&self, other: &KeyEvent) -> bool {
        self.spec_matches(*other)
    }
}

impl PartialEq for Event {
    /// Equality of events is the match of one with the other.
    fn eq(&self, other: &Event) -> (r: bool) {
        self.matches(*other)
    }
}

impl Eq for Event {

}

impl vstd::std_specs::cmp::PartialEqSpecImpl for Event {
    open spec fn obeys_eq_spec() -> bool {
        true
    }

    open spec fn eq_spec(&self, other: &Event) -> bool {
        self.spec_matches(*other)
    }
}

/// Turns a key into the event of pressing it.
pub trait KeyCodeExt: Sized {
    /// The event that a binding on this key with `modifier` waits for.
    spec fn event_with(self, modifier: KeyModifiers) -> Event;

    /// The press of this key with `modifier` held.
    fn into_event(self, modifier: KeyModifiers) -> (e: Event)
        ensures
            e == self.event_with(modifier),
    ;

    /// The press of this key with no modifier held.
    fn into_event_no_modifier(self) -> (e: Event)
        ensures
            e == self.event_with(KeyModifiers::spec_empty()),
    {
        self.into_event(KeyModifiers::empty())
    }
}

impl KeyCodeExt for KeyCode {
    open spec fn event_with(self, modifier: KeyModifiers) -> Event {
        Event::Key(KeyEvent::spec_new(self, modifier))
    }

    fn into_event(self, modifier: KeyModifiers) -> (e: Event) {
        Event::Key(KeyEvent::new(self, modifier))
    }
}

} // verus!
