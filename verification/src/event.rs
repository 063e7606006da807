//! What the event loop receives: input from the terminal, and the signal
//! that new output has arrived.

use vstd::prelude::*;

verus! {

/// A key press.
#[derive(Clone, Copy, Debug, PartialEq, Eq, Structural)]
pub enum Key {
    /// The backspace key.
    Backspace,
    /// The left arrow.
    Left,
    /// The right arrow.
    Right,
    /// A character key. Enter arrives as `'\n'` or `'\r'`.
    Char(char),
    /// A character key pressed together with control.
    Ctrl(char),
    /// Any other key.
    Other,
}

/// A mouse button that was pressed.
#[derive(Clone, Copy, Debug, PartialEq, Eq, Structural)]
pub enum MouseButton {
    /// The wheel, turned up.
    WheelUp,
    /// The wheel, turned down.
    WheelDown,
    /// Any other button.
    Other,
}

/// One decoded input event of the terminal.
#[derive(Clone, Copy, Debug, PartialEq, Eq, Structural)]
pub enum UserEvent {
    /// A key was pressed.
    Key(Key),
    /// A mouse button was pressed.
    MousePress(MouseButton),
    /// Anything else: a button released, a drag, an unknown sequence.
    Other,
}

/// One entry of the stream that the event loop works through.
#[derive(Clone, Copy, Debug, PartialEq, Eq, Structural)]
pub enum Event {
    /// Input from the terminal.
    UserEvent(UserEvent),
    /// The line buffer holds new output. It carries no data: the buffer is
    /// what counts, so several of these may be replaced by one.
    Update,
}

} // verus!
