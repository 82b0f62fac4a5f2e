//! The typed input-event model.

use vstd::prelude::*;

verus! {

/// All possible keys to press.
#[derive(Clone, Copy, Debug, PartialEq, Eq, Structural)]
pub enum Key {
    Up,
    Down,
    Left,
    Right,
    Home,
    End,
    PageUp,
    PageDown,
    Backspace,
    Enter,
    Escape,
    Tab,
    F(u32),
}

/// Possible mouse buttons that can be pressed.
#[derive(Clone, Copy, Debug, PartialEq, Eq, Structural)]
pub enum MouseButton {
    Left,
    Middle,
    Right,
}

/// All events that can occur.
#[derive(Clone, Copy, Debug, PartialEq, Eq, Structural)]
pub enum Event {
    /// When a non-character key is pressed.
    Key(Key),
    /// When a character key is pressed.
    Character(char),
    /// When the terminal window is resized. Carries the new width and height
    /// of the terminal.
    Resize(u32, u32),
    /// When a mouse button is pressed, at a column and a row.
    MouseDown(u32, u32, MouseButton),
    /// When a mouse button is released after being pressed.
    MouseUp(u32, u32, MouseButton),
}

} // verus!
