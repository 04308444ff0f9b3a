//! Key presses, as the state machine reads them.

use vstd::prelude::*;

verus! {

/// Which key.
#[derive(Debug, Clone, Copy, PartialEq, Eq, Structural)]
pub enum KeyCode {
    Char(char),
    Enter,
    Esc,
    Tab,
    BackTab,
    Left,
    Right,
    Up,
    Down,
    Home,
    End,
    Backspace,
    Delete,
    Other,
}

/// A key event.
#[derive(Debug, Clone, Copy, PartialEq, Eq, Structural)]
pub struct Key {
    pub code: KeyCode,
    pub control: bool,
    pub shift: bool,
    /// A press, not a release or a repeat.
    pub press: bool,
}

impl Key {
    pub open spec fn ctrl_c(self) -> bool {
        self.code == KeyCode::Char('c') && self.control
    }
}

} // verus!
