//! What the window reports: keys, and the events that carry them.

use vstd::prelude::*;

verus! {

/// A key of the keyboard, as far as navigation tells keys apart.
#[derive(Clone, Copy, Debug, PartialEq, Eq, Structural)]
pub enum Key {
    /// The plus key of the number pad.
    Add,
    /// The minus key of the number pad.
    Subtract,
    Space,
    Escape,
    Left,
    Right,
    Up,
    Down,
    A,
    D,
    E,
    F,
    I,
    O,
    Q,
    S,
    W,
    Z,
    /// Any key that navigation has no name for.
    Other,
}

/// One discrete signal from the window.
#[derive(Clone, Copy, Debug, PartialEq, Eq, Structural)]
pub enum InputEvent {
    /// A key went down.
    KeyPressed(Key),
    /// A key stays down, and the keyboard repeats it.
    KeyHeld(Key),
    /// A key came up.
    KeyReleased(Key),
    /// The window was closed.
    Closed,
}

} // verus!
