//! Deleting: the dialog that asks, and what has to be removed how.
//!
//! The removal itself is done by the caller, between the dialog's
//! confirmation and its [`RmDirDialog::deleted`].

use vstd::prelude::*;
use vstd::string::StringExecFns;
use crate::keys::{is_arrow, is_enter, key_is_arrow, key_is_enter, Buttons, Key};
use crate::path::{path_text, PanelPath};
use crate::text::{decimal, decimal_text};

verus! {

/// How far a deletion is.
#[derive(Copy, Clone, Debug, PartialEq, Eq, Structural)]
pub enum DeleteDialogState {
    WaitingForConfirmation,
    Deleting,
    Deleted,
}

impl Default for DeleteDialogState {
    fn default() -> (r: Self)
        ensures
            r == DeleteDialogState::WaitingForConfirmation,
    {
        DeleteDialogState::WaitingForConfirmation
    }
}

impl DeleteDialogState {
    /// The place of the state on the way of a deletion. A deletion never
    /// goes back.
    pub open spec fn rank(self) -> nat {
        match self {
            DeleteDialogState::WaitingForConfirmation => 0,
            DeleteDialogState::Deleting => 1,
            DeleteDialogState::Deleted => 2,
        }
    }
}

/// What the file system says a path is.
#[derive(Copy, Clone, Debug, PartialEq, Eq, Structural)]
pub struct PathKind {
    pub is_file: bool,
    pub is_symlink: bool,
    pub is_dir: bool,
}

/// How a path is removed.
#[derive(Copy, Clone, Debug, PartialEq, Eq, Structural)]
pub enum Removal {
    /// The path itself is removed.
    RemoveFile,
    /// The directory is removed with all that is in it.
    RemoveDirAll,
    /// The path is left alone.
    Skip,
}

/// How a path of the given kind is removed: a file or a link by itself, a
/// directory with all that is in it, and anything else not at all.
pub open spec fn removal_for(kind: PathKind) -> Removal {
    if kind.is_file || kind.is_symlink {
        Removal::RemoveFile
    } else if kind.is_dir {
        Removal::RemoveDirAll
    } else {
        Removal::Skip
    }
}

/// How each of the paths is removed. Each path is dealt with on its own,
/// whatever becomes of the others.
pub fn delete_files(kinds: &Vec<PathKind>) -> (plan: Vec<Removal>)
    ensures
        plan.len() == kinds.len(),
        forall|i: int| 0 <= i < kinds.len() ==> #[trigger] plan[i] == removal_for(kinds[i]),
{
    let mut plan: Vec<Removal> = Vec::new();
    let mut i: usize = 0;
    while i < kinds.len()
        invariant
            i <= kinds.len(),
            plan.len() == i,
            forall|k: int| 0 <= k < i ==> #[trigger] plan[k] == removal_for(kinds[k]),
        decreases kinds.len() - i,
    {
        let kind = kinds[i];
        let removal = if kind.is_file || kind.is_symlink {
            Removal::RemoveFile
        } else if kind.is_dir {
            Removal::RemoveDirAll
        } else {
            Removal::Skip
        };
        plan.push(removal);
        i += 1;
    }
    plan
}

/// The state of a [`RmDirDialog`].
pub struct DeleteState {
    pub dialog_state: DeleteDialogState,
    pub focused_button: Buttons,
    pub should_quit: bool,
}

impl DeleteState {
    /// The state of a new dialog. The focus is on the cancelling button.
    pub open spec fn initial() -> DeleteState {
        DeleteState {
            dialog_state: DeleteDialogState::WaitingForConfirmation,
            focused_button: Buttons::Cancel,
            should_quit: false,
        }
    }

    /// Whether the key starts the removal: Enter on the confirming button,
    /// while the dialog waits.
    pub open spec fn deletes_on_key(self, key: Key) -> bool {
        is_enter(key) && self.dialog_state == DeleteDialogState::WaitingForConfirmation
            && self.focused_button == Buttons::Confirm
    }

    /// The state after a key. While the dialog waits, Enter presses the
    /// button in focus: the confirming one starts the removal, the
    /// cancelling one closes the dialog. The tabulator and the arrows move
    /// the focus to the other button. Any other key does nothing.
    pub open spec fn keyed(self, key: Key) -> DeleteState {
        if is_enter(key) {
            if self.dialog_state == DeleteDialogState::WaitingForConfirmation {
                match self.focused_button {
                    Buttons::Confirm => DeleteState {
                        dialog_state: DeleteDialogState::Deleting,
                        ..self
                    },
                    Buttons::Cancel => DeleteState { should_quit: true, ..self },
                }
            } else {
                self
            }
        } else if key == Key::Char('\t') || is_arrow(key) {
            DeleteState { focused_button: self.focused_button.other(), ..self }
        } else {
            self
        }
    }

    /// The state once the removal is done.
    pub open spec fn done(self) -> DeleteState {
        if self.dialog_state == DeleteDialogState::Deleting {
            DeleteState { dialog_state: DeleteDialogState::Deleted, should_quit: true, ..self }
        } else {
            self
        }
    }
}

/// A deletion never goes back.
pub proof fn lemma_deletion_never_goes_back(state: DeleteState, key: Key)
    ensures
        state.keyed(key).dialog_state.rank() >= state.dialog_state.rank(),
        state.done().dialog_state.rank() >= state.dialog_state.rank(),
{
}

/// The question of the dialog, for `count` paths; `is_dir` says whether a
/// single path is a directory.
pub open spec fn confirm_text(count: nat, is_dir: bool) -> Seq<char> {
    if count == 1 {
        if is_dir {
            "Are you sure you want to delete this folder and all of its content ?"@
        } else {
            "Are you sure you want to delete this file ?"@
        }
    } else {
        "Are you sure you want to delete "@ + decimal_text(count) + " items ?"@
    }
}

/// The dialog of one deletion.
#[derive(Debug)]
pub struct RmDirDialog {
    dialog_state: DeleteDialogState,
    files: Vec<PanelPath>,
    focused_button: Buttons,
    should_quit: bool,
}

impl RmDirDialog {
    /// The state of the dialog.
    pub closed spec fn state(&self) -> DeleteState {
        DeleteState {
            dialog_state: self.dialog_state,
            focused_button: self.focused_button,
            should_quit: self.should_quit,
        }
    }

    /// The paths to delete.
    pub closed spec fn targets(&self) -> Seq<Seq<Seq<char>>> {
        Seq::new(self.files.len() as nat, |i: int| self.files[i]@)
    }

    /// A dialog that waits for the confirmation to delete the paths.
    pub fn new(files: Vec<PanelPath>) -> (r: Self)
        ensures
            r.state() == DeleteState::initial(),
            r.targets() == Seq::new(files.len() as nat, |i: int| files[i]@),
    {
        RmDirDialog {
            dialog_state: DeleteDialogState::WaitingForConfirmation,
            files,
            focused_button: Buttons::Cancel,
            should_quit: false,
        }
    }

    /// Takes a key. The result says whether the paths have to be removed
    /// now; once they are, [`Self::deleted`] is to be called.
    pub fn handle_keys(&mut self, key: Key) -> (delete: bool)
        ensures
            delete == old(self).state().deletes_on_key(key),
            final(self).state() == old(self).state().keyed(key),
            final(self).targets() == old(self).targets(),
    {
        if key_is_enter(key) {
            match self.dialog_state {
                DeleteDialogState::WaitingForConfirmation => match self.focused_button {
                    Buttons::Confirm => {
                        self.dialog_state = DeleteDialogState::Deleting;
                        true
                    },
                    Buttons::Cancel => {
                        self.should_quit = true;
                        false
                    },
                },
                _ => false,
            }
        } else {
            let tabulator = match key {
                Key::Char(c) => c == '\t',
                _ => false,
            };
            if tabulator || key_is_arrow(key) {
                self.focused_button.next();
            }
            false
        }
    }

    /// Says that the paths were removed, as far as they could be.
    pub fn deleted(&mut self)
        ensures
            final(self).state() == old(self).state().done(),
            final(self).targets() == old(self).targets(),
    {
        match self.dialog_state {
            DeleteDialogState::Deleting => {
                self.dialog_state = DeleteDialogState::Deleted;
                self.should_quit = true;
            },
            _ => {},
        }
    }

    pub fn dialog_state(&self) -> (r: DeleteDialogState)
        ensures
            r == self.state().dialog_state,
    {
        self.dialog_state
    }

    pub fn focused_button(&self) -> (r: Buttons)
        ensures
            r == self.state().focused_button,
    {
        self.focused_button
    }

    /// Whether the dialog is to be closed.
    pub fn should_quit(&self) -> (r: bool)
        ensures
            r == self.state().should_quit,
    {
        self.should_quit
    }

    /// The paths to delete.
    pub fn files(&self) -> (r: &Vec<PanelPath>)
        ensures
            Seq::new(r.len() as nat, |i: int| r[i]@) == self.targets(),
    {
        &self.files
    }

    /// The question of the dialog; `is_dir` says whether the first path is a
    /// directory.
    pub fn confirm_msg(&self, is_dir: bool) -> (r: String)
        ensures
            r@ == confirm_text(self.targets().len(), is_dir),
    {
        let count = self.files.len();
        if count == 1 {
            if is_dir {
                "Are you sure you want to delete this folder and all of its content ?".to_owned()
            } else {
                "Are you sure you want to delete this file ?".to_owned()
            }
        } else {
            let mut text = "Are you sure you want to delete ".to_owned();
            text.append(decimal(count as u64).as_str());
            text.append(" items ?");
            text
        }
    }

    /// The path that the dialog names: the single one, or nothing when
    /// there are several.
    pub fn get_name(&self) -> (r: String)
        ensures
            r@ == if self.targets().len() == 1 {
                path_text(self.targets()[0])
            } else {
                Seq::empty()
            },
    {
        if self.files.len() == 1 {
            self.files[0].display()
        } else {
            String::new()
        }
    }
}

} // verus!
