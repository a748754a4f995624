//! The parts of the screen and what they tell each other.

use vstd::prelude::*;
use crate::keys::Key;
use crate::menu::TopMenuMessage;

verus! {

/// How often the screen is made anew when no key comes, in milliseconds.
pub const DEFAULT_TICK_RATE: u64 = 250;

/// The time between two ticks, in milliseconds: the one asked for, or the
/// usual one.
pub fn tick_rate(asked: Option<u64>) -> (r: u64)
    ensures
        r == match asked {
            Some(rate) => rate,
            None => DEFAULT_TICK_RATE,
        },
{
    match asked {
        Some(rate) => rate,
        None => DEFAULT_TICK_RATE,
    }
}

/// The parts of the screen.
#[derive(Copy, Clone, Debug, PartialEq, Eq, Hash, Structural)]
pub enum UserInterfaces {
    Topmenu,
    LeftPanel,
    RightPanel,
    BottomMenu,
}

/// What a part of the screen tells the program.
#[derive(Copy, Clone, Debug, PartialEq, Eq, Structural)]
pub enum ApplicationMessage {
    /// The program is to end.
    Close,
    /// The bottom menu is to have the focus.
    FocusBottomMenu,
    TopMenu(TopMenuMessage),
    /// Nothing is asked for, but the screen is to be made anew.
    Tick,
}

/// What the program waits for.
#[derive(Copy, Clone, Debug, PartialEq, Eq)]
pub enum Event<I> {
    /// A key was pressed.
    Input(I),
    /// Time has passed.
    Tick,
}

/// The panel that has the focus.
#[derive(Copy, Clone, Debug, PartialEq, Eq, Structural)]
pub enum ActivePanel {
    Left,
    Right,
}

impl ActivePanel {
    /// The other panel.
    pub open spec fn other(self) -> ActivePanel {
        match self {
            ActivePanel::Left => ActivePanel::Right,
            ActivePanel::Right => ActivePanel::Left,
        }
    }

    /// Gives the focus to the other panel.
    pub fn switch(&mut self)
        ensures
            *final(self) == old(self).other(),
    {
        match self {
            ActivePanel::Left => *self = ActivePanel::Right,
            ActivePanel::Right => *self = ActivePanel::Left,
        }
    }
}

/// What the program does after it was told something.
#[derive(Copy, Clone, Debug, PartialEq, Eq, Structural)]
pub struct Update {
    /// Whether the program is to end.
    pub quit: bool,
    /// The part of the screen that is to get the focus, if any.
    pub focus: Option<UserInterfaces>,
    /// What the program is told next.
    pub next: Option<ApplicationMessage>,
}

/// What the program does after a message; `focused` is the part that has
/// the focus.
///
/// A request to close ends the program. A request for the bottom menu, or
/// the top menu giving the focus up, gives the focus to the bottom menu.
/// The top menu taking the focus gets it unless it has it or no part has it.
/// All but the last are followed by a tick, and a tick by nothing.
pub open spec fn update_for(message: ApplicationMessage, focused: Option<UserInterfaces>) -> Update {
    match message {
        ApplicationMessage::Close => Update { quit: true, focus: None, next: None },
        ApplicationMessage::FocusBottomMenu => Update {
            quit: false,
            focus: Some(UserInterfaces::BottomMenu),
            next: Some(ApplicationMessage::Tick),
        },
        ApplicationMessage::TopMenu(TopMenuMessage::Blur) => Update {
            quit: false,
            focus: Some(UserInterfaces::BottomMenu),
            next: Some(ApplicationMessage::Tick),
        },
        ApplicationMessage::TopMenu(TopMenuMessage::Focus) => Update {
            quit: false,
            focus: if focused is Some && focused != Some(UserInterfaces::Topmenu) {
                Some(UserInterfaces::Topmenu)
            } else {
                None
            },
            next: Some(ApplicationMessage::Tick),
        },
        ApplicationMessage::Tick => Update { quit: false, focus: None, next: None },
    }
}

/// What the program does after a message.
pub fn update(message: ApplicationMessage, focused: Option<UserInterfaces>) -> (r: Update)
    ensures
        r == update_for(message, focused),
{
    match message {
        ApplicationMessage::Close => Update { quit: true, focus: None, next: None },
        ApplicationMessage::FocusBottomMenu => Update {
            quit: false,
            focus: Some(UserInterfaces::BottomMenu),
            next: Some(ApplicationMessage::Tick),
        },
        ApplicationMessage::TopMenu(top_menu_msg) => {
            let focus = match top_menu_msg {
                TopMenuMessage::Blur => Some(UserInterfaces::BottomMenu),
                TopMenuMessage::Focus => match focused {
                    Some(UserInterfaces::Topmenu) => None,
                    Some(_) => Some(UserInterfaces::Topmenu),
                    None => None,
                },
            };
            Update { quit: false, focus, next: Some(ApplicationMessage::Tick) }
        },
        ApplicationMessage::Tick => Update { quit: false, focus: None, next: None },
    }
}

/// What the bottom menu tells the program when a key comes: F9 calls the
/// top menu, F10 ends the program, and no other key concerns it.
pub open spec fn bottom_menu_message(key: Key) -> Option<ApplicationMessage> {
    if key == Key::F(9) {
        Some(ApplicationMessage::TopMenu(TopMenuMessage::Focus))
    } else if key == Key::F(10) {
        Some(ApplicationMessage::Close)
    } else {
        None
    }
}

/// What the bottom menu tells the program when a key comes.
pub fn bottom_menu_on(key: Key) -> (r: Option<ApplicationMessage>)
    ensures
        r == bottom_menu_message(key),
{
    match key {
        Key::F(n) => if n == 9 {
            Some(ApplicationMessage::TopMenu(TopMenuMessage::Focus))
        } else if n == 10 {
            Some(ApplicationMessage::Close)
        } else {
            None
        },
        _ => None,
    }
}

} // verus!
