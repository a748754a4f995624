//! The dialog that shows the keys.

use vstd::prelude::*;
use crate::keys::Key;

verus! {

/// The dialog that shows the keys. It stays until it is told to go.
#[derive(Debug)]
pub struct HelpDialog {
    should_quit: bool,
}

/// Whether the key closes the help: Enter, F1 and Escape do.
pub open spec fn closes_help(key: Key) -> bool {
    key == Key::Char('\n') || key == Key::F(1) || key == Key::Esc
}

impl HelpDialog {
    /// Whether the dialog is to be closed.
    pub closed spec fn quits(&self) -> bool {
        self.should_quit
    }

    pub fn new() -> (r: Self)
        ensures
            !r.quits(),
    {
        HelpDialog { should_quit: false }
    }

    /// Closes the dialog on Enter, F1 and Escape; any other key leaves it as
    /// it is.
    pub fn handle_key(&mut self, key: Key)
        ensures
            final(self).quits() == (old(self).quits() || closes_help(key)),
    {
        let closes = match key {
            Key::Char(c) => c == '\n',
            Key::F(n) => n == 1,
            Key::Esc => true,
            _ => false,
        };
        if closes {
            self.should_quit = true
        }
    }

    /// Whether the dialog is to be closed.
    pub fn should_quit(&self) -> (r: bool)
        ensures
            r == self.quits(),
    {
        self.should_quit
    }
}

} // verus!
