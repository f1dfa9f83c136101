//! Decoded key events.  The core never sees raw terminal events: the host
//! input layer resolves them to these semantic keys (and a control-modifier
//! flag) before they reach the editor.

use vstd::prelude::*;

verus! {

/// A key the editor reacts to, already decoded by the input layer.
#[derive(Debug, Clone, Copy, PartialEq, Eq, Structural)]
pub enum Key {
    Char(char),
    F(u8),
    Backspace,
    Enter,
    Left,
    Right,
    Up,
    Down,
    Tab,
    Delete,
    Home,
    End,
    PageUp,
    PageDown,
    Esc,
    MouseScrollDown,
    MouseScrollUp,
    Null,
}

/// What the event loop should do after a key has been applied.
#[derive(Debug, Clone, Copy, PartialEq, Eq, Structural)]
pub enum KeyOutcome {
    /// Keep editing.
    Continue,
    /// The user asked to save; the caller owns the file write.
    Save,
    /// The user asked to leave the editor.
    Quit,
}

} // verus!
