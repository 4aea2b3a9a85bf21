//! Key presses as the editor and the journeys read them.

use vstd::prelude::*;

verus! {

/// The key that was pressed.
#[derive(Debug, Clone, Copy, PartialEq, Eq, Structural)]
pub enum KeyCode {
    Enter,
    Char(char),
    Backspace,
    Left,
    Right,
    Up,
    Down,
    Tab,
    Esc,
    /// Any key the application does not react to.
    Other,
}

/// One key event: the key, whether Alt was the only modifier held, and whether
/// the event is a press (rather than a release or a repeat).
#[derive(Debug, Clone, Copy, PartialEq, Eq, Structural)]
pub struct KeyEvent {
    pub code: KeyCode,
    pub alt: bool,
    pub press: bool,
}

impl KeyEvent {
    /// A plain press of `code`, without modifiers.
    pub fn pressed(code: KeyCode) -> (r: KeyEvent)
        ensures
            r == (KeyEvent { code, alt: false, press: true }),
    {
        KeyEvent { code, alt: false, press: true }
    }
}

} // verus!
