//! Key presses, as far as the client tells them apart.

use vstd::prelude::*;

verus! {

/// The key that was pressed.
#[derive(Clone, Copy, Debug, PartialEq, Eq, Structural)]
pub enum KeyCode {
    Backspace,
    Enter,
    Up,
    Down,
    Tab,
    Esc,
    Char(char),
    /// Any other key.
    Other,
}

/// A key press: the key, and whether Control was held down with it.
#[derive(Clone, Copy, Debug, PartialEq, Eq, Structural)]
pub struct KeyEvent {
    pub code: KeyCode,
    pub control: bool,
}

/// What the terminal reports: a key press, or something that is none.
#[derive(Clone, Copy, Debug, PartialEq, Eq, Structural)]
pub enum Event {
    Key(KeyEvent),
    /// The mouse, or a change of the terminal's size.
    Other,
}

/// Control with `c` or with `d` asks the client to quit.
pub open spec fn quits(input: Event) -> bool {
    match input {
        Event::Key(key) => key.control && (key.code == KeyCode::Char('c') || key.code
            == KeyCode::Char('d')),
        Event::Other => false,
    }
}

/// Whether the input asks the client to quit.
pub fn should_quit(input: &Event) -> (quit: bool)
    ensures
        quit == quits(*input),
{
    match input {
        Event::Key(key) => match key.code {
            KeyCode::Char(c) => key.control && (c == 'c' || c == 'd'),
            _ => false,
        },
        Event::Other => false,
    }
}

} // verus!
