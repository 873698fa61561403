//! The closed set of event categories with their typed payloads.
//!
//! Values are immutable, copyable and ephemeral: an event exists for one
//! dispatch cycle only.  Mouse coordinates and scroll offsets are fixed-point
//! integers in thousandths of a unit (see the crate root).

use vstd::prelude::*;

verus! {

/// A tagged union over every event category, plus a sentinel that no
/// listener method is mapped to.
#[derive(Debug, Clone, Copy, PartialEq, Eq, Structural)]
pub enum Event {
    App(AppEvent),
    Window(WindowEvent),
    Keyboard(KeyboardEvent),
    Mouse(MouseEvent),
    Nothing,
}

#[derive(Debug, Clone, Copy, PartialEq, Eq, Structural)]
pub enum AppEvent {
    Tick,
}

#[derive(Debug, Clone, Copy, PartialEq, Eq, Structural)]
pub enum WindowEvent {
    Close,
    Resize(u32, u32),
    Focus(bool),
}

#[derive(Debug, Clone, Copy, PartialEq, Eq, Structural)]
pub enum KeyboardEvent {
    Press(Key, Modifier),
    Release(Key, Modifier),
    Repeat(Key, Modifier),
}

/// Mouse events; `Move` carries the cursor position and `Scroll` the wheel
/// offsets, both in fixed-point thousandths.
#[derive(Debug, Clone, Copy, PartialEq, Eq, Structural)]
pub enum MouseEvent {
    Press(MouseButton, Modifier),
    Release(MouseButton, Modifier),
    Repeat(MouseButton, Modifier),
    Move(i64, i64),
    Scroll(i64, i64),
}

#[derive(Debug, Clone, Copy, PartialEq, Eq, Structural)]
pub enum MouseButton {
    Left,
    Right,
    Middle,
    Button4,
    Button5,
    Button6,
    Button7,
    Button8,
    Unknown,
}

/// A bitmask over the modifier keys; see the `modifiers` module for the
/// defined bits.  Bits outside the defined ones carry no meaning.
pub type Modifier = u8;

#[derive(Debug, Clone, Copy, PartialEq, Eq, Structural)]
pub enum Key {
    // letters
    A, B, C, D, E, F, G, H, I, J, K, L, M,
    N, O, P, Q, R, S, T, U, V, W, X, Y, Z,

    // numbers
    Num0, Num1, Num2, Num3, Num4, Num5,
    Num6, Num7, Num8, Num9, NumPad0, NumPad1,
    NumPad2, NumPad3, NumPad4, NumPad5, NumPad6,
    NumPad7, NumPad8, NumPad9,

    // function keys
    F1, F2, F3, F4, F5, F6, F7, F8, F9, F10, F11, F12,

    // special keys
    Escape, LControl, LShift, LAlt, LSuper,
    RControl, RShift, RAlt, RSuper, Menu,
    LBracket, RBracket, Semicolon, Comma, Period,
    Quote, Slash, Backslash, Tilde, Equal, Minus,
    Plus, Space, Return, Backspace, Tab, PageUp,
    PageDown, End, Home, Insert, Delete, Left,
    Right, Up, Down, NumpadComma, Pause, Enter,
    Apostrophe, CapsLock, PrintScreen, ScrollLock,
    GraveAccent, NumLock, NumPadDivide, NumPadMultiply,
    NumPadSubtract, NumPadAdd, NumPadEnter, NumPadEqual,
    NumPadDecimal,

    // fallback for platform keys without a mapping
    Unknown,
}

} // verus!
