//! The keys a dialog or a panel can be given.

use vstd::prelude::*;

verus! {

/// A key of the keyboard, as a terminal reports it.
#[derive(Copy, Clone, Debug, PartialEq, Eq, Structural)]
pub enum Key {
    Backspace,
    Left,
    Right,
    Up,
    Down,
    Home,
    End,
    PageUp,
    PageDown,
    BackTab,
    Delete,
    Insert,
    /// A function key, by its number.
    F(u8),
    /// A character key. Enter is `'\n'` and the tabulator is `'\t'`.
    Char(char),
    Alt(char),
    Ctrl(char),
    Null,
    Esc,
}

/// The two buttons of a dialog that asks for a confirmation.
#[derive(Copy, Clone, Debug, PartialEq, Eq, Structural)]
pub enum Buttons {
    Confirm,
    Cancel,
}

impl Buttons {
    /// The other button.
    pub open spec fn other(self) -> Buttons {
        match self {
            Buttons::Confirm => Buttons::Cancel,
            Buttons::Cancel => Buttons::Confirm,
        }
    }

    /// The other button.
    pub fn toggled(self) -> (r: Buttons)
        ensures
            r == self.other(),
    {
        match self {
            Buttons::Confirm => Buttons::Cancel,
            Buttons::Cancel => Buttons::Confirm,
        }
    }

    /// Moves the focus to the other button.
    pub fn next(&mut self)
        ensures
            *final(self) == old(self).other(),
    {
        match *self {
            Buttons::Confirm => *self = Buttons::Cancel,
            Buttons::Cancel => *self = Buttons::Confirm,
        }
    }
}

/// Whether the key is one of the four arrows.
pub open spec fn is_arrow(key: Key) -> bool {
    key == Key::Left || key == Key::Right || key == Key::Up || key == Key::Down
}

/// Whether the key is Enter.
pub open spec fn is_enter(key: Key) -> bool {
    key == Key::Char('\n')
}

/// Whether the key is one of the four arrows.
pub fn key_is_arrow(key: Key) -> (r: bool)
    ensures
        r == is_arrow(key),
{
    match key {
        Key::Left | Key::Right | Key::Up | Key::Down => true,
        _ => false,
    }
}

/// Whether the key is Enter.
pub fn key_is_enter(key: Key) -> (r: bool)
    ensures
        r == is_enter(key),
{
    match key {
        Key::Char(c) => c == '\n',
        _ => false,
    }
}

} // verus!
