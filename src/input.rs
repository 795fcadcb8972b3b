//! Input events, as far as the session tells them apart.

use vstd::prelude::*;

verus! {

/// A key, as far as the session tells keys apart.
#[derive(PartialEq, Eq, Structural, Clone, Copy, Debug)]
pub enum Key {
    Char(char),
    Enter,
    Esc,
    Tab,
    Backspace,
    Left,
    Right,
    Up,
    Down,
    Other,
}

/// The modifier keys held with a key: none, shift alone, or anything else.
#[derive(PartialEq, Eq, Structural, Clone, Copy, Debug)]
pub enum Modifiers {
    Plain,
    Shift,
    Other,
}

/// A key press.
#[derive(PartialEq, Eq, Structural, Clone, Copy, Debug)]
pub struct KeyInput {
    pub key: Key,
    pub modifiers: Modifiers,
}

/// What a mouse did.
#[derive(PartialEq, Eq, Structural, Clone, Copy, Debug)]
pub enum MouseAction {
    ScrollUp,
    ScrollDown,
    Press,
    Other,
}

/// A mouse event at a terminal cell.
#[derive(PartialEq, Eq, Structural, Clone, Copy, Debug)]
pub struct MouseInput {
    pub action: MouseAction,
    pub column: u16,
    pub row: u16,
}

/// An input event.
#[derive(PartialEq, Eq, Structural, Clone, Copy, Debug)]
pub enum Event {
    Key(KeyInput),
    Mouse(MouseInput),
    Other,
}

} // verus!
