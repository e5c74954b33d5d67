//! Keyboard events as plain values: the key that was pressed and the
//! modifier keys held with it, in the encoding the terminal backend uses.
use vstd::prelude::*;

verus! {

/// A key on the keyboard.
#[derive(Clone, Copy, Debug, PartialEq, Eq, Hash, Structural)]
pub enum KeyCode {
    Backspace,
    Enter,
    Left,
    Right,
    Up,
    Down,
    Home,
    End,
    PageUp,
    PageDown,
    Tab,
    BackTab,
    Delete,
    Insert,
    /// A function key, `F(1)` being F1.
    F(u8),
    /// A character key.
    Char(char),
    Null,
    Esc,
    CapsLock,
    ScrollLock,
    NumLock,
    PrintScreen,
    Pause,
    Menu,
    KeypadBegin,
    /// A media key, by its index in the backend's media key list.
    Media(u8),
    /// A lone modifier key, by its index in the backend's modifier key list.
    Modifier(u8),
}

/// Modifier keys held during a key press, as a bit set.
#[derive(Clone, Copy, Debug, PartialEq, Eq, Hash, Structural)]
pub struct KeyModifiers {
    pub bits: u8,
}

/// Bit of the shift key.
pub const SHIFT_BIT: u8 = 0b0000_0001;

/// Bit of the control key.
pub const CONTROL_BIT: u8 = 0b0000_0010;

/// Bit of the alt key.
pub const ALT_BIT: u8 = 0b0000_0100;

impl KeyModifiers {
    /// No modifier held.
    pub fn none() -> (r: KeyModifiers)
        ensures
            r.bits == 0,
    {
        KeyModifiers { bits: 0 }
    }

    /// Shift held.
    pub fn shift() -> (r: KeyModifiers)
        ensures
            r.bits == SHIFT_BIT,
    {
        KeyModifiers { bits: SHIFT_BIT }
    }

    /// Control held.
    pub fn control() -> (r: KeyModifiers)
        ensures
            r.bits == CONTROL_BIT,
    {
        KeyModifiers { bits: CONTROL_BIT }
    }

    /// Alt held.
    pub fn alt() -> (r: KeyModifiers)
        ensures
            r.bits == ALT_BIT,
    {
        KeyModifiers { bits: ALT_BIT }
    }

    /// The modifier set with exactly the given bits.
    pub fn from_bits(bits: u8) -> (r: KeyModifiers)
        ensures
            r.bits == bits,
    {
        KeyModifiers { bits }
    }

    /// Both sets together.
    pub fn union(self, other: KeyModifiers) -> (r: KeyModifiers)
        ensures
            r.bits == self.bits | other.bits,
    {
        KeyModifiers { bits: self.bits | other.bits }
    }

    /// Whether every modifier of `other` is held in `self`.
    pub open spec fn spec_contains(self, other: KeyModifiers) -> bool {
        self.bits & other.bits == other.bits
    }

    /// Whether every modifier of `other` is held in `self`.
    pub fn contains(&self, other: KeyModifiers) -> (r: bool)
        ensures
            r == self.spec_contains(other),
    {
        self.bits & other.bits == other.bits
    }

    /// Whether shift is held.
    pub open spec fn has_shift(self) -> bool {
        self.bits & SHIFT_BIT == SHIFT_BIT
    }

    /// Whether control is held.
    pub open spec fn has_control(self) -> bool {
        self.bits & CONTROL_BIT == CONTROL_BIT
    }

    /// Whether alt is held.
    pub open spec fn has_alt(self) -> bool {
        self.bits & ALT_BIT == ALT_BIT
    }

    /// Whether shift is held.
    pub fn shift_held(&self) -> (r: bool)
        ensures
            r == self.has_shift(),
    {
        self.contains(KeyModifiers::shift())
    }

    /// Whether control is held.
    pub fn control_held(&self) -> (r: bool)
        ensures
            r == self.has_control(),
    {
        self.contains(KeyModifiers::control())
    }

    /// Whether alt is held.
    pub fn alt_held(&self) -> (r: bool)
        ensures
            r == self.has_alt(),
    {
        self.contains(KeyModifiers::alt())
    }
}

/// A key press: the key and the modifiers held with it.
#[derive(Clone, Copy, Debug, PartialEq, Eq, Hash, Structural)]
pub struct KeyEvent {
    pub code: KeyCode,
    pub modifiers: KeyModifiers,
}

impl KeyEvent {
    /// A key press of `code` with `modifiers` held.
    pub fn new(code: KeyCode, modifiers: KeyModifiers) -> (r: KeyEvent)
        ensures
            r.code == code,
            r.modifiers == modifiers,
    {
        KeyEvent { code, modifiers }
    }
}

} // verus!
