//! Terminal input as the library reads it: key and mouse messages as the
//! terminal backend reports them, and the key events the engine consumes.

use vstd::prelude::*;

verus! {

/// Keys reported by the terminal backend.
#[derive(Debug, Clone, Copy, PartialEq, Eq, Structural)]
pub enum KeyCode {
    Char(char),
    Enter,
    Esc,
    Tab,
    Backspace,
    Delete,
    Insert,
    Up,
    Down,
    Left,
    Right,
    Home,
    End,
    PageUp,
    PageDown,
    F(u8),
    CapsLock,
    NumLock,
    ScrollLock,
    /// A modifier key pressed as a key in its own right.
    Modifier,
}

/// The kind of a key event.
#[derive(Debug, Clone, Copy, PartialEq, Eq, Structural)]
pub enum KeyKind {
    Press,
    Repeat,
    Release,
}

/// Modifier keys held during an input event.
#[derive(Debug, Clone, Copy, PartialEq, Eq, Structural)]
pub struct KeyModifiers {
    pub ctrl: bool,
    pub alt: bool,
    pub shift: bool,
    pub super_key: bool,
    pub hyper: bool,
    pub meta: bool,
}

impl KeyModifiers {
    /// Nothing held.
    pub fn none() -> (m: Self)
        ensures
            !m.ctrl && !m.alt && !m.shift && !m.super_key && !m.hyper && !m.meta,
    {
        KeyModifiers { ctrl: false, alt: false, shift: false, super_key: false, hyper: false, meta: false }
    }

    /// The same modifiers with shift set to `shift`.
    pub fn with_shift(self, shift: bool) -> (m: Self)
        ensures
            m == (KeyModifiers { shift, ..self }),
    {
        KeyModifiers { shift, ..self }
    }

    /// The same modifiers with ctrl set to `ctrl`.
    pub fn with_ctrl(self, ctrl: bool) -> (m: Self)
        ensures
            m == (KeyModifiers { ctrl, ..self }),
    {
        KeyModifiers { ctrl, ..self }
    }
}

impl Default for KeyModifiers {
    fn default() -> (m: Self)
        ensures
            !m.ctrl && !m.alt && !m.shift && !m.super_key && !m.hyper && !m.meta,
    {
        KeyModifiers::none()
    }
}

/// A key event forwarded from the terminal backend.
#[derive(Debug, Clone, Copy, PartialEq, Eq, Structural)]
pub struct KeyMessage {
    pub code: KeyCode,
    pub modifiers: KeyModifiers,
    pub kind: KeyKind,
}

impl KeyMessage {
    /// A key event as a backend reports it.
    pub fn new(code: KeyCode, modifiers: KeyModifiers, kind: KeyKind) -> (m: Self)
        ensures
            m == (KeyMessage { code, modifiers, kind }),
    {
        KeyMessage { code, modifiers, kind }
    }
}

/// A mouse button.
#[derive(Debug, Clone, Copy, PartialEq, Eq, Structural)]
pub enum MouseButton {
    Left,
    Right,
    Middle,
    Back,
    Forward,
    Other(u16),
}

/// The kind of a mouse event.
#[derive(Debug, Clone, Copy, PartialEq, Eq, Structural)]
pub enum MouseKind {
    Down(MouseButton),
    Up(MouseButton),
    Drag(MouseButton),
    Moved,
    ScrollUp,
    ScrollDown,
    ScrollLeft,
    ScrollRight,
    /// Every gesture in flight ended without a release.
    Cancel,
}

/// A cell position: column `x`, row `y`.
#[derive(Debug, Clone, Copy, PartialEq, Eq, Structural)]
pub struct Position {
    pub x: u16,
    pub y: u16,
}

impl Position {
    pub fn new(x: u16, y: u16) -> (p: Self)
        ensures
            p == (Position { x, y }),
    {
        Position { x, y }
    }
}

/// A mouse event in cell coordinates.
#[derive(Debug, Clone, Copy, PartialEq, Eq, Structural)]
pub struct MouseMessage {
    pub kind: MouseKind,
    pub position: Position,
    pub modifiers: KeyModifiers,
}

impl MouseMessage {
    /// A mouse event as a backend reports it.
    pub fn new(kind: MouseKind, position: Position, modifiers: KeyModifiers) -> (m: Self)
        ensures
            m == (MouseMessage { kind, position, modifiers }),
    {
        MouseMessage { kind, position, modifiers }
    }
}

/// What the active terminal backend can report.
#[derive(Debug, Clone, Copy, PartialEq, Eq, Structural)]
pub struct InputCapabilities {
    /// Real key-release events arrive.
    pub key_release: bool,
    /// Modifier keys arrive as key events.
    pub modifier_keys: bool,
}

/// Information about a key getting pressed or released, as the engine
/// reads it.
#[derive(Debug, Clone, Copy, PartialEq, Eq, Structural)]
pub struct KeyData {
    pub pressed: bool,
    pub key: u8,
}

} // verus!
