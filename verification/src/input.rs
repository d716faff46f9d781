//! The keys that the terminal screens react to.

use vstd::prelude::*;

verus! {

/// A key as the screens see it.
#[derive(Clone, Copy, Debug, PartialEq, Eq, Structural)]
pub enum Key {
    Up,
    Down,
    Left,
    Right,
    Home,
    End,
    Tab,
    BackTab,
    Enter,
    Esc,
    Delete,
    Backspace,
    Char(char),
    /// Any key that no screen reacts to.
    Other,
}

/// A key press: the key and whether Control was held.
#[derive(Clone, Copy, Debug, PartialEq, Eq, Structural)]
pub struct KeyPress {
    pub key: Key,
    pub ctrl: bool,
}

} // verus!
