//! Making a directory: the dialog that takes the name.
//!
//! The line of text is kept by `tui_input::Input`. The directory itself is
//! made by the caller, who then tells the dialog how it went.

use vstd::prelude::*;
use crate::keys::{is_arrow, is_enter, Buttons, Key};
use crate::listing::IoError;
use crate::path::PanelPath;

verus! {

#[verifier::external_type_specification]
#[verifier::external_body]
pub struct ExInput(tui_input::Input);

/// The text that a line holds.
pub uninterp spec fn input_text(input: tui_input::Input) -> Seq<char>;

/// The place of the cursor in a line, counted in characters.
pub uninterp spec fn input_cursor(input: tui_input::Input) -> nat;

/// Whether Unicode counts the character as a letter or a number, as
/// `char::is_alphanumeric` tells.
pub uninterp spec fn is_alphanumeric(c: char) -> bool;

/// A change to a line of text.
#[derive(Copy, Clone, Debug, PartialEq, Eq, Structural)]
pub enum Edit {
    /// Puts the character in at the cursor.
    InsertChar(char),
    /// Takes out what stands ahead of the cursor.
    DeletePrevChar,
    /// Takes out what stands at the cursor.
    DeleteNextChar,
}

/// An empty line.
///
/// This is `tui_input::Input::default()`: no text, and the cursor at 0.
#[verifier::external_body]
fn new_input() -> (input: tui_input::Input)
    ensures
        input_text(input) == Seq::<char>::empty(),
        input_cursor(input) == 0,
{
    tui_input::Input::default()
}

/// Changes a line whose cursor stands at its end.
///
/// This is `tui_input::Input::handle` with the request of the same name.
/// With the cursor at the end, `InsertChar` appends the character;
/// `DeletePrevChar` takes the last user-perceived character off, which is
/// one character or more, and does nothing to an empty line;
/// `DeleteNextChar` finds nothing to take out. The cursor stays at the end.
#[verifier::external_body]
fn edit_input(input: &mut tui_input::Input, edit: Edit)
    requires
        input_cursor(*old(input)) == input_text(*old(input)).len(),
    ensures
        input_cursor(*final(input)) == input_text(*final(input)).len(),
        match edit {
            Edit::InsertChar(c) => input_text(*final(input)) == input_text(*old(input)).push(c),
            Edit::DeletePrevChar => {
                &&& input_text(*final(input)).len() <= input_text(*old(input)).len()
                &&& input_text(*final(input)) == input_text(*old(input)).take(
                    input_text(*final(input)).len() as int,
                )
                &&& input_text(*old(input)).len() > 0 ==> input_text(*final(input)).len()
                    < input_text(*old(input)).len()
            },
            Edit::DeleteNextChar => input_text(*final(input)) == input_text(*old(input)),
        },
{
    let request = match edit {
        Edit::InsertChar(c) => tui_input::InputRequest::InsertChar(c),
        Edit::DeletePrevChar => tui_input::InputRequest::DeletePrevChar,
        Edit::DeleteNextChar => tui_input::InputRequest::DeleteNextChar,
    };
    input.handle(request);
}

/// The text of a line.
///
/// This is `tui_input::Input::value`, which hands out the text the line
/// holds.
#[verifier::external_body]
fn input_value(input: &tui_input::Input) -> (text: String)
    ensures
        text@ == input_text(*input),
{
    input.value().to_owned()
}

/// Whether the character is a letter or a number.
///
/// This is `char::is_alphanumeric` of the standard library. What it says
/// depends on the character alone.
#[verifier::external_body]
fn char_is_alphanumeric(c: char) -> (r: bool)
    ensures
        r == is_alphanumeric(c),
{
    c.is_alphanumeric()
}

/// What the dialog shows.
#[derive(Debug, PartialEq)]
pub enum MkDirDialogState {
    WaitingForInput,
    DisplayErrorMessage(String),
}

/// The state of a [`MkDirDialog`].
pub struct MkDirState {
    pub button: Buttons,
    /// The name typed so far.
    pub text: Seq<char>,
    pub hide: bool,
    /// The words of the failure that is shown, if one is.
    pub error: Option<Seq<char>>,
}

impl MkDirState {
    /// The state of a new dialog.
    pub open spec fn initial() -> MkDirState {
        MkDirState { button: Buttons::Confirm, text: Seq::empty(), hide: false, error: None }
    }

    /// Whether the key asks for the directory to be made: Enter on the
    /// confirming button, while the dialog takes input.
    pub open spec fn creates_on_key(self, key: Key) -> bool {
        self.error is None && is_enter(key) && self.button == Buttons::Confirm
    }

    /// Whether the key leaves the text as it is.
    pub open spec fn keeps_text(self, key: Key) -> bool {
        self.error is Some || match key {
            Key::Char(c) => c == '\n' || !is_alphanumeric(c),
            Key::Backspace => false,
            _ => true,
        }
    }

    /// The state after a key, but for the text.
    ///
    /// While a failure is shown, Enter goes back to the input and Escape
    /// closes the dialog. While the dialog takes input, Enter on the
    /// cancelling button closes it, and an arrow moves the focus to the
    /// other button.
    pub open spec fn keyed(self, key: Key) -> MkDirState {
        if self.error is Some {
            if is_enter(key) {
                MkDirState { error: None, ..self }
            } else if key == Key::Esc {
                MkDirState { hide: true, ..self }
            } else {
                self
            }
        } else if is_enter(key) {
            match self.button {
                Buttons::Confirm => self,
                Buttons::Cancel => MkDirState { hide: true, ..self },
            }
        } else if is_arrow(key) {
            MkDirState { button: self.button.other(), ..self }
        } else {
            self
        }
    }

    /// The state after the caller has tried to make the directory.
    pub open spec fn created(self, result: Result<(), IoError>) -> MkDirState {
        match result {
            Ok(_) => MkDirState { hide: true, ..self },
            Err(error) => MkDirState { error: Some(error.message@), ..self },
        }
    }
}

/// The dialog that takes the name of a new directory.
#[derive(Debug)]
pub struct MkDirDialog {
    button: Buttons,
    input: tui_input::Input,
    hide: bool,
    parent_dir: PanelPath,
    state: MkDirDialogState,
}

impl MkDirDialog {
    #[verifier::type_invariant]
    spec fn cursor_at_end(self) -> bool {
        input_cursor(self.input) == input_text(self.input).len()
    }

    /// The state of the dialog.
    pub closed spec fn view_state(&self) -> MkDirState {
        MkDirState {
            button: self.button,
            text: input_text(self.input),
            hide: self.hide,
            error: match self.state {
                MkDirDialogState::WaitingForInput => None,
                MkDirDialogState::DisplayErrorMessage(message) => Some(message@),
            },
        }
    }

    /// The directory in which the new one is made.
    pub closed spec fn parent(&self) -> Seq<Seq<char>> {
        self.parent_dir@
    }

    /// A dialog for a new directory in `parent_dir`.
    pub fn new(parent_dir: PanelPath) -> (r: Self)
        ensures
            r.view_state() == MkDirState::initial(),
            r.parent() == parent_dir@,
    {
        MkDirDialog {
            button: Buttons::Confirm,
            input: new_input(),
            hide: false,
            state: MkDirDialogState::WaitingForInput,
            parent_dir,
        }
    }

    /// The directory to make: the one named by the text, in the parent.
    pub fn create_dir(&self) -> (r: PanelPath)
        ensures
            r@ == self.parent().push(self.view_state().text),
    {
        self.parent_dir.join(input_value(&self.input).as_str())
    }

    /// The name typed so far.
    pub fn value(&self) -> (r: String)
        ensures
            r@ == self.view_state().text,
    {
        input_value(&self.input)
    }

    /// Changes the text.
    fn edit(&mut self, edit: Edit)
        ensures
            final(self).parent() == old(self).parent(),
            final(self).view_state() == (MkDirState {
                text: final(self).view_state().text,
                ..old(self).view_state()
            }),
            match edit {
                Edit::InsertChar(c) => final(self).view_state().text == old(
                    self,
                ).view_state().text.push(c),
                Edit::DeletePrevChar => {
                    let before = old(self).view_state().text;
                    let after = final(self).view_state().text;
                    &&& after.len() <= before.len()
                    &&& after == before.take(after.len() as int)
                    &&& before.len() > 0 ==> after.len() < before.len()
                },
                Edit::DeleteNextChar => final(self).view_state().text == old(
                    self,
                ).view_state().text,
            },
    {
        proof {
            use_type_invariant(&*self);
        }
        let mut input = new_input();
        core::mem::swap(&mut self.input, &mut input);
        edit_input(&mut input, edit);
        core::mem::swap(&mut self.input, &mut input);
    }

    /// Takes a key. The result names the directory that the caller has to
    /// make now; once it has tried, [`Self::created`] is to be called.
    ///
    /// While the dialog takes input, a letter or a number is appended to
    /// the text, and the backspace key takes the last character off: the
    /// last one that a reader sees, which may be more than one character.
    /// All other keys leave the text as it is.
    pub fn handle_key(&mut self, key: Key) -> (create: Option<PanelPath>)
        ensures
            final(self).parent() == old(self).parent(),
            final(self).view_state() == (MkDirState {
                text: final(self).view_state().text,
                ..old(self).view_state().keyed(key)
            }),
            if old(self).view_state().creates_on_key(key) {
                create is Some && create->0@ == old(self).parent().push(old(self).view_state().text)
            } else {
                create is None
            },
            old(self).view_state().keeps_text(key) ==> final(self).view_state().text == old(
                self,
            ).view_state().text,
            old(self).view_state().error is None ==> match key {
                Key::Char(c) => c != '\n' && is_alphanumeric(c) ==> final(self).view_state().text
                    == old(self).view_state().text.push(c),
                Key::Backspace => {
                    let before = old(self).view_state().text;
                    let after = final(self).view_state().text;
                    &&& after.len() <= before.len()
                    &&& after == before.take(after.len() as int)
                    &&& before.len() > 0 ==> after.len() < before.len()
                },
                _ => true,
            },
    {
        proof {
            use_type_invariant(&*self);
        }
        let waiting = match &self.state {
            MkDirDialogState::WaitingForInput => true,
            MkDirDialogState::DisplayErrorMessage(_) => false,
        };
        if waiting {
            match key {
                Key::Char(c) => {
                    if c == '\n' {
                        match self.button {
                            Buttons::Confirm => {
                                return Some(self.create_dir());
                            },
                            Buttons::Cancel => {
                                self.hide = true;
                            },
                        }
                    } else if char_is_alphanumeric(c) {
                        self.edit(Edit::InsertChar(c));
                    }
                },
                Key::Backspace => {
                    self.edit(Edit::DeletePrevChar);
                },
                Key::Delete => {
                    self.edit(Edit::DeleteNextChar);
                },
                Key::Right | Key::Left | Key::Up | Key::Down => {
                    self.button = self.button.toggled();
                },
                _ => {},
            }
        } else {
            match key {
                Key::Char(c) => {
                    if c == '\n' {
                        self.state = MkDirDialogState::WaitingForInput;
                    }
                },
                Key::Esc => {
                    self.hide = true;
                },
                _ => {},
            }
        }
        None
    }

    /// Says how making the directory went. If it was made, the dialog
    /// closes; else it shows the failure.
    pub fn created(&mut self, result: Result<(), IoError>)
        ensures
            final(self).parent() == old(self).parent(),
            final(self).view_state() == old(self).view_state().created(result),
    {
        proof {
            use_type_invariant(&*self);
        }
        match result {
            Ok(_) => {
                self.hide = true;
            },
            Err(error) => {
                self.state = MkDirDialogState::DisplayErrorMessage(error.message);
            },
        }
    }

    /// What the dialog shows.
    pub fn state(&self) -> (r: &MkDirDialogState)
        ensures
            match *r {
                MkDirDialogState::WaitingForInput => self.view_state().error is None,
                MkDirDialogState::DisplayErrorMessage(message) => self.view_state().error == Some(
                    message@,
                ),
            },
    {
        &self.state
    }

    pub fn button(&self) -> (r: Buttons)
        ensures
            r == self.view_state().button,
    {
        self.button
    }

    /// Whether the dialog is to be closed.
    pub fn should_hide(&self) -> (r: bool)
        ensures
            r == self.view_state().hide,
    {
        self.hide
    }
}

} // verus!
