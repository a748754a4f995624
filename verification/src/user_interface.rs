//! The whole screen: two panels, the menu bar and at most one dialog, and
//! where each key goes.
//!
//! The screen never touches the file system. What it needs done there it
//! asks of its caller, as a [`Request`], and the caller tells it how it went.

use vstd::prelude::*;
use crate::config::{Configuration, ConfigurationView, TableConfigurationView};
use crate::delete::{DeleteState, RmDirDialog};
use crate::entries::{next_selection, previous_selection};
use crate::help::{closes_help, HelpDialog};
use crate::keys::Key;
use crate::listing::{listing_of, DirEntryData, IoError};
use crate::menu::{premade_menu, MenuState, MenuStateView};
use crate::mkdir::{MkDirDialog, MkDirState};
use crate::panel::{cd_target, has_refreshed, TableViewModelView};
use crate::panel_options::{PanelOpionsDialog, PanelOptionsState};
use crate::path::{path_text, PanelPath};
use crate::sort::{
    direction_from_text, direction_keyword, predicate_from_text, predicate_keyword,
    TableSortDirection, TableSortPredicate,
};
use crate::sorting_dialog::{with_sort, SortingDialog, SortingState};
use crate::table_view::{
    has_changed_dir, is_opened, is_sorted_in_place, TableView, TableViewView,
};
use crate::transfer::{
    CopyStrategy, MoveStrategy, TransferDialog, TransferState, WorkerEvent,
};
use crate::ui::ActivePanel;

verus! {

/// Where the keys go.
#[derive(Copy, Clone, Debug, PartialEq, Eq, Structural)]
pub enum InputMode {
    /// To the panels.
    Normal,
    /// To the dialog.
    Editing,
    /// To the menu bar.
    Menu,
}

/// What has the focus.
#[derive(Copy, Clone, Debug, PartialEq, Eq, Structural)]
pub enum Widgets {
    TwinPanel,
    Dialog,
}

/// Why a dialog was not opened.
#[derive(Copy, Clone, Debug, PartialEq, Eq, Structural)]
enum ShowDialogError {
    /// The panel has no entry under the cursor.
    NoSelectedSource,
}

/// A dialog that is opened from the menu bar.
#[derive(Debug)]
pub enum MenuDialog {
    Sorting(SortingDialog),
    Options(PanelOpionsDialog),
}

/// The dialog on the screen.
#[derive(Debug)]
pub enum Dialog {
    Help(HelpDialog),
    Copy(TransferDialog<CopyStrategy>),
    Move(TransferDialog<MoveStrategy>),
    MkDir(MkDirDialog),
    RmDir(RmDirDialog),
    Menu(MenuDialog),
}

/// The mathematical value of a [`MenuDialog`].
pub enum MenuDialogView {
    Sorting(SortingState),
    Options(PanelOptionsState),
}

/// The mathematical value of a [`Dialog`].
pub enum DialogView {
    Help { quits: bool },
    Copy { state: TransferState, source: Seq<Seq<char>>, destination: Seq<Seq<char>> },
    Move { state: TransferState, source: Seq<Seq<char>>, destination: Seq<Seq<char>> },
    MkDir { input: MkDirState, parent: Seq<Seq<char>> },
    RmDir { deletion: DeleteState, targets: Seq<Seq<Seq<char>>> },
    Menu(MenuDialogView),
}

impl View for MenuDialog {
    type V = MenuDialogView;

    open spec fn view(&self) -> MenuDialogView {
        match *self {
            MenuDialog::Sorting(dialog) => MenuDialogView::Sorting(dialog.view_state()),
            MenuDialog::Options(dialog) => MenuDialogView::Options(dialog.view_state()),
        }
    }
}

impl View for Dialog {
    type V = DialogView;

    open spec fn view(&self) -> DialogView {
        match *self {
            Dialog::Help(dialog) => DialogView::Help { quits: dialog.quits() },
            Dialog::Copy(dialog) => DialogView::Copy {
                state: dialog.state(),
                source: dialog.source_path(),
                destination: dialog.destination_path(),
            },
            Dialog::Move(dialog) => DialogView::Move {
                state: dialog.state(),
                source: dialog.source_path(),
                destination: dialog.destination_path(),
            },
            Dialog::MkDir(dialog) => DialogView::MkDir {
                input: dialog.view_state(),
                parent: dialog.parent(),
            },
            Dialog::RmDir(dialog) => DialogView::RmDir {
                deletion: dialog.state(),
                targets: dialog.targets(),
            },
            Dialog::Menu(dialog) => DialogView::Menu(dialog@),
        }
    }
}

/// The value of the dialog on the screen, if there is one.
pub open spec fn dialog_view(dialog: Option<Dialog>) -> Option<DialogView> {
    match dialog {
        Some(dialog) => Some(dialog@),
        None => None,
    }
}

/// What the caller has to do for the screen.
#[derive(Debug)]
pub enum Request {
    /// Nothing.
    Nothing,
    /// Read the directory and hand what was read to
    /// [`UserInterface::change_dir`].
    ReadDir(PanelPath),
    /// Start the worker of the transfer on the screen, and hand what it
    /// reports to [`UserInterface::tick`].
    StartTransfer,
    /// Make the directory and say how it went to
    /// [`UserInterface::dir_created`].
    MakeDir(PanelPath),
    /// Remove the paths of the deletion on the screen, then call
    /// [`UserInterface::files_deleted`].
    DeleteFiles,
    /// Read the directory of the left panel and hand what was read to
    /// [`UserInterface::reload_left`].
    ReloadLeft,
    /// Read the directory of the right panel and hand what was read to
    /// [`UserInterface::reload_right`].
    ReloadRight,
    /// Read the directories of both panels and hand what was read to
    /// [`UserInterface::reload_both`].
    ReloadBoth,
}

/// The mathematical value of a [`Request`].
pub enum RequestView {
    Nothing,
    ReadDir(Seq<Seq<char>>),
    StartTransfer,
    MakeDir(Seq<Seq<char>>),
    DeleteFiles,
    ReloadLeft,
    ReloadRight,
    ReloadBoth,
}

impl View for Request {
    type V = RequestView;

    open spec fn view(&self) -> RequestView {
        match *self {
            Request::Nothing => RequestView::Nothing,
            Request::ReadDir(path) => RequestView::ReadDir(path@),
            Request::StartTransfer => RequestView::StartTransfer,
            Request::MakeDir(path) => RequestView::MakeDir(path@),
            Request::DeleteFiles => RequestView::DeleteFiles,
            Request::ReloadLeft => RequestView::ReloadLeft,
            Request::ReloadRight => RequestView::ReloadRight,
            Request::ReloadBoth => RequestView::ReloadBoth,
        }
    }
}

/// The mathematical value of a [`UserInterface`].
pub struct UserInterfaceView {
    pub active_panel: ActivePanel,
    pub config: ConfigurationView,
    pub dialog: Option<DialogView>,
    pub top_menu: MenuStateView,
    pub left_panel: TableViewView,
    pub right_panel: TableViewView,
    pub focused_widget: Widgets,
    pub input_mode: InputMode,
}

/// The path of the entry under the cursor of a panel.
pub open spec fn selected_file(panel: TableViewView) -> Option<Seq<Seq<char>>> {
    match panel.model.selected {
        Some(i) => Some(panel.model.cwd.push(panel.model.files[i as int].name)),
        None => None,
    }
}

/// The panel with its cursor moved to another place.
pub open spec fn with_selected(panel: TableViewView, selected: Option<usize>) -> TableViewView {
    TableViewView { model: TableViewModelView { selected, ..panel.model }, ..panel }
}

/// The panel with the focus given to it.
pub open spec fn with_focus(panel: TableViewView, is_active: bool) -> TableViewView {
    TableViewView { is_active, ..panel }
}

impl UserInterfaceView {
    /// The panel that the keys go to.
    pub open spec fn active(self) -> TableViewView {
        match self.active_panel {
            ActivePanel::Left => self.left_panel,
            ActivePanel::Right => self.right_panel,
        }
    }

    /// The other panel.
    pub open spec fn passive(self) -> TableViewView {
        match self.active_panel {
            ActivePanel::Left => self.right_panel,
            ActivePanel::Right => self.left_panel,
        }
    }

    /// The screen with the panel that the keys go to replaced.
    pub open spec fn with_active(self, panel: TableViewView) -> UserInterfaceView {
        match self.active_panel {
            ActivePanel::Left => UserInterfaceView { left_panel: panel, ..self },
            ActivePanel::Right => UserInterfaceView { right_panel: panel, ..self },
        }
    }

    /// The screen without a dialog: the keys go to the panels again.
    pub open spec fn closed(self) -> UserInterfaceView {
        UserInterfaceView {
            input_mode: InputMode::Normal,
            dialog: None,
            focused_widget: Widgets::TwinPanel,
            ..self
        }
    }

    /// The screen with a dialog opened over the panels.
    pub open spec fn opened(self, dialog: DialogView) -> UserInterfaceView {
        UserInterfaceView {
            input_mode: InputMode::Editing,
            dialog: Some(dialog),
            focused_widget: Widgets::Dialog,
            ..self
        }
    }

    /// The screen with the focus given from the panel that has it to the
    /// other, and the keys going to the other panel.
    pub open spec fn switched(self) -> UserInterfaceView {
        let moved = if self.left_panel.is_active {
            UserInterfaceView {
                left_panel: with_focus(self.left_panel, false),
                right_panel: with_focus(self.right_panel, true),
                ..self
            }
        } else if self.right_panel.is_active {
            UserInterfaceView {
                left_panel: with_focus(self.left_panel, true),
                right_panel: with_focus(self.right_panel, false),
                ..self
            }
        } else {
            self
        };
        UserInterfaceView { active_panel: self.active_panel.other(), ..moved }
    }
}

/// What a key does while the keys go to the panels.
///
/// The tabulator switches the panels. Home, End and the arrows up and down
/// move the cursor of the panel. Enter asks for the directory that the
/// cursor leads to, if it leads anywhere. Ctrl with `n`, `s` or `l` sorts
/// by name, size or date, and Ctrl with `u` or `d` sorts upwards or
/// downwards. F1 opens the help. F5, F6 and F8 open the dialog to copy, to
/// move or to delete what is under the cursor, if anything is; what is
/// copied or moved goes to the directory of the other panel. F7 opens the
/// dialog for a new directory in the directory of the panel. F9 opens the
/// menu bar.
pub open spec fn handles_in_panels(
    before: UserInterfaceView,
    after: UserInterfaceView,
    key: Key,
    request: RequestView,
) -> bool {
    let panel = before.active();
    let files = panel.model.files.len();
    let quiet = request is Nothing;
    match key {
        Key::Char(c) => if c == '\t' {
            quiet && after == before.switched()
        } else if c == '\n' {
            &&& after == before
            &&& match cd_target(panel.model) {
                Ok(target) => request == RequestView::ReadDir(target.path),
                Err(_) => quiet,
            }
        } else {
            quiet && after == before
        },
        Key::Home => quiet && after == before.with_active(
            with_selected(
                panel,
                if files > 0 {
                    Some(0usize)
                } else {
                    panel.model.selected
                },
            ),
        ),
        Key::End => quiet && after == before.with_active(
            with_selected(
                panel,
                if files > 0 {
                    Some((files - 1) as usize)
                } else {
                    panel.model.selected
                },
            ),
        ),
        Key::Up => quiet && after == before.with_active(
            with_selected(panel, previous_selection(panel.model.selected, files)),
        ),
        Key::Down => quiet && after == before.with_active(
            with_selected(panel, next_selection(panel.model.selected, files)),
        ),
        Key::Ctrl(c) => {
            let sorted_by = if c == 'n' {
                Some(TableSortPredicate::Name)
            } else if c == 'l' {
                Some(TableSortPredicate::LastModified)
            } else if c == 's' {
                Some(TableSortPredicate::Size)
            } else {
                None
            };
            let sorted_in = if c == 'u' {
                Some(TableSortDirection::Ascending)
            } else if c == 'd' {
                Some(TableSortDirection::Descending)
            } else {
                None
            };
            &&& quiet
            &&& if sorted_by is Some || sorted_in is Some {
                &&& after == before.with_active(after.active())
                &&& after.active().is_active == panel.is_active
                &&& is_sorted_in_place(
                    panel.model,
                    after.active().model,
                    if sorted_by is Some {
                        sorted_by->0
                    } else {
                        panel.model.predicate
                    },
                    if sorted_in is Some {
                        sorted_in->0
                    } else {
                        panel.model.direction
                    },
                )
            } else {
                after == before
            }
        },
        Key::F(n) => {
            &&& quiet
            &&& after == if n == 1 {
                UserInterfaceView {
                    input_mode: InputMode::Editing,
                    dialog: Some(DialogView::Help { quits: false }),
                    ..before
                }
            } else if n == 5 {
                match selected_file(panel) {
                    Some(source) => before.opened(
                        DialogView::Copy {
                            state: TransferState::initial(),
                            source,
                            destination: before.passive().model.cwd,
                        },
                    ),
                    None => before,
                }
            } else if n == 6 {
                match selected_file(panel) {
                    Some(source) => before.opened(
                        DialogView::Move {
                            state: TransferState::initial(),
                            source,
                            destination: before.passive().model.cwd,
                        },
                    ),
                    None => before,
                }
            } else if n == 7 {
                before.opened(
                    DialogView::MkDir { input: MkDirState::initial(), parent: panel.model.cwd },
                )
            } else if n == 8 {
                match selected_file(panel) {
                    Some(target) => before.opened(
                        DialogView::RmDir { deletion: DeleteState::initial(), targets: seq![target] },
                    ),
                    None => before,
                }
            } else if n == 9 {
                UserInterfaceView {
                    input_mode: InputMode::Menu,
                    top_menu: before.top_menu.activated(),
                    ..before
                }
            } else {
                before
            }
        },
        _ => quiet && after == before,
    }
}

/// The dialog that the menu bar opens: the sort of the left panel for the
/// first group, the options for the second, the sort of the right panel
/// for the third, and none for any other.
pub open spec fn menu_dialog_for(before: UserInterfaceView) -> Option<DialogView> {
    if before.top_menu.selected_item_idx == 0 {
        Some(
            DialogView::Menu(
                MenuDialogView::Sorting(
                    SortingState::initial(
                        before.left_panel.model.predicate,
                        before.left_panel.model.direction,
                    ),
                ),
            ),
        )
    } else if before.top_menu.selected_item_idx == 1 {
        Some(
            DialogView::Menu(
                MenuDialogView::Options(PanelOptionsState::initial(before.config.show_hidden_files)),
            ),
        )
    } else if before.top_menu.selected_item_idx == 2 {
        Some(
            DialogView::Menu(
                MenuDialogView::Sorting(
                    SortingState::initial(
                        before.right_panel.model.predicate,
                        before.right_panel.model.direction,
                    ),
                ),
            ),
        )
    } else {
        before.dialog
    }
}

/// The screen after a key, while the keys go to the menu bar.
///
/// The arrows move in the menu. F9 and Escape close it. Enter closes it
/// too and opens the dialog of the current group.
pub open spec fn keyed_in_menu(before: UserInterfaceView, key: Key) -> UserInterfaceView {
    match key {
        Key::Left => UserInterfaceView { top_menu: before.top_menu.stepped_left(), ..before },
        Key::Right => UserInterfaceView { top_menu: before.top_menu.stepped_right(), ..before },
        Key::Up => UserInterfaceView { top_menu: before.top_menu.stepped_up(), ..before },
        Key::Down => UserInterfaceView { top_menu: before.top_menu.stepped_down(), ..before },
        Key::Esc => UserInterfaceView {
            top_menu: before.top_menu.with_selected(false),
            input_mode: InputMode::Normal,
            ..before
        },
        Key::F(n) => if n == 9 {
            UserInterfaceView {
                top_menu: before.top_menu.with_selected(false),
                input_mode: InputMode::Normal,
                ..before
            }
        } else {
            before
        },
        Key::Char(c) => if c == '\n' {
            UserInterfaceView {
                top_menu: before.top_menu.with_selected(false),
                input_mode: InputMode::Editing,
                dialog: menu_dialog_for(before),
                ..before
            }
        } else {
            before
        },
        _ => before,
    }
}

/// What a key does while the keys go to the dialog.
///
/// The help takes every key. Every other dialog is closed by Escape and
/// takes the other keys; what it then asks for is handed on.
pub open spec fn handles_in_dialog(
    before: UserInterfaceView,
    after: UserInterfaceView,
    key: Key,
    request: RequestView,
) -> bool {
    let quiet = request is Nothing;
    match before.dialog {
        None => quiet && after == before,
        Some(DialogView::Help { quits }) => quiet && after == (UserInterfaceView {
            dialog: Some(DialogView::Help { quits: quits || closes_help(key) }),
            ..before
        }),
        Some(dialog) => if key == Key::Esc {
            quiet && after == before.closed()
        } else {
            match dialog {
                DialogView::Copy { state, source, destination } => {
                    &&& after == (UserInterfaceView {
                        dialog: Some(
                            DialogView::Copy { state: state.keyed(key), source, destination },
                        ),
                        ..before
                    })
                    &&& request == if state.starts_on_key(key) {
                        RequestView::StartTransfer
                    } else {
                        RequestView::Nothing
                    }
                },
                DialogView::Move { state, source, destination } => {
                    &&& after == (UserInterfaceView {
                        dialog: Some(
                            DialogView::Move { state: state.keyed(key), source, destination },
                        ),
                        ..before
                    })
                    &&& request == if state.starts_on_key(key) {
                        RequestView::StartTransfer
                    } else {
                        RequestView::Nothing
                    }
                },
                DialogView::MkDir { input: state, parent } => {
                    &&& after == (UserInterfaceView { dialog: after.dialog, ..before })
                    &&& after.dialog matches Some(DialogView::MkDir { input: now, parent: kept })
                    &&& kept == parent
                    &&& now == (MkDirState { text: now.text, ..state.keyed(key) })
                    &&& state.keeps_text(key) ==> now.text == state.text
                    &&& request == if state.creates_on_key(key) {
                        RequestView::MakeDir(parent.push(state.text))
                    } else {
                        RequestView::Nothing
                    }
                },
                DialogView::RmDir { deletion: state, targets } => {
                    &&& after == (UserInterfaceView {
                        dialog: Some(DialogView::RmDir { deletion: state.keyed(key), targets }),
                        ..before
                    })
                    &&& request == if state.deletes_on_key(key) {
                        RequestView::DeleteFiles
                    } else {
                        RequestView::Nothing
                    }
                },
                DialogView::Menu(MenuDialogView::Sorting(state)) => quiet && after == (
                UserInterfaceView {
                    dialog: Some(DialogView::Menu(MenuDialogView::Sorting(state.keyed(key)))),
                    ..before
                }),
                DialogView::Menu(MenuDialogView::Options(state)) => quiet && after == (
                UserInterfaceView {
                    dialog: Some(DialogView::Menu(MenuDialogView::Options(state.keyed(key)))),
                    ..before
                }),
                DialogView::Help { quits } => true,
            }
        },
    }
}

/// What a key does to the screen, and what the screen then asks for.
pub open spec fn handles(
    before: UserInterfaceView,
    after: UserInterfaceView,
    key: Key,
    request: RequestView,
) -> bool {
    match before.input_mode {
        InputMode::Normal => handles_in_panels(before, after, key, request),
        InputMode::Menu => request is Nothing && after == keyed_in_menu(before, key),
        InputMode::Editing => handles_in_dialog(before, after, key, request),
    }
}

impl UserInterfaceView {
    /// There is a dialog on the screen only while the keys go to it.
    pub open spec fn is_settled(self) -> bool {
        self.input_mode != InputMode::Editing ==> self.dialog is None
    }
}

/// A dialog is never opened over another: whatever key comes and however
/// time passes, there is a dialog on the screen only while the keys go to
/// it, and the keys that open a dialog go to the panels and to the menu bar.
pub proof fn lemma_one_dialog_at_a_time(
    before: UserInterfaceView,
    after: UserInterfaceView,
    key: Key,
    event: WorkerEvent,
    request: RequestView,
)
    requires
        before.is_settled(),
        handles(before, after, key, request) || ticks(before, after, event, request),
    ensures
        after.is_settled(),
        before.dialog is Some && after.dialog is Some ==> after.input_mode == InputMode::Editing
            && before.input_mode == InputMode::Editing,
{
}

/// The settings after a dialog of the menu bar has asked for its change.
/// The dialog of a sort writes into the settings of the panel that the keys
/// go to.
pub open spec fn changed_config(
    config: ConfigurationView,
    dialog: MenuDialogView,
    active_panel: ActivePanel,
) -> ConfigurationView {
    match dialog {
        MenuDialogView::Sorting(state) => with_sort(
            config,
            active_panel,
            state.predicate,
            state.direction,
        ),
        MenuDialogView::Options(state) => ConfigurationView {
            show_hidden_files: state.show_hidden_files,
            ..config
        },
    }
}

/// Whether the dialog of the menu bar is done.
pub open spec fn menu_dialog_quits(dialog: MenuDialogView) -> bool {
    match dialog {
        MenuDialogView::Sorting(state) => state.should_quit,
        MenuDialogView::Options(state) => state.should_quit,
    }
}

/// Whether the dialog of the menu bar asks for the settings to change.
pub open spec fn menu_dialog_changes(dialog: MenuDialogView) -> bool {
    match dialog {
        MenuDialogView::Sorting(state) => state.change_config,
        MenuDialogView::Options(state) => state.request_config_change,
    }
}

/// What the screen needs of a dialog that is opened from the menu bar.
pub trait BoxedDialog {
    /// Whether the dialog is done.
    spec fn quits(&self) -> bool;

    /// Whether the dialog asks for the settings to change.
    spec fn asks_for_change(&self) -> bool;

    /// The settings after the change that the dialog asks for; the keys go
    /// to the panel `active_panel`.
    spec fn changed(&self, config: ConfigurationView, active_panel: ActivePanel)
        -> ConfigurationView;

    /// Writes into the settings what the dialog says.
    fn change_configuration(&self, config: &mut Configuration, active_panel: ActivePanel)
        ensures
            final(config)@ == self.changed(old(config)@, active_panel),
    ;

    /// Whether `after` is this dialog after the key.
    spec fn takes_key(&self, after: &Self, key: Key) -> bool;

    /// Takes a key.
    fn handle_keys(&mut self, key: Key)
        ensures
            old(self).takes_key(final(self), key),
    ;

    /// Whether the settings are to be changed as the dialog says.
    fn request_config_change(&self) -> (r: bool)
        ensures
            r == self.asks_for_change(),
    ;

    /// Whether the dialog is to be closed.
    fn should_quit(&self) -> (r: bool)
        ensures
            r == self.quits(),
    ;
}

impl BoxedDialog for MenuDialog {
    open spec fn quits(&self) -> bool {
        menu_dialog_quits(self@)
    }

    open spec fn asks_for_change(&self) -> bool {
        menu_dialog_changes(self@)
    }

    open spec fn changed(&self, config: ConfigurationView, active_panel: ActivePanel)
        -> ConfigurationView {
        changed_config(config, self@, active_panel)
    }

    open spec fn takes_key(&self, after: &Self, key: Key) -> bool {
        after@ == match self@ {
            MenuDialogView::Sorting(state) => MenuDialogView::Sorting(state.keyed(key)),
            MenuDialogView::Options(state) => MenuDialogView::Options(state.keyed(key)),
        }
    }

    fn change_configuration(&self, config: &mut Configuration, active_panel: ActivePanel) {
        match self {
            MenuDialog::Sorting(dialog) => dialog.change_configuration(config, active_panel),
            MenuDialog::Options(dialog) => dialog.change_configuration(config, active_panel),
        }
    }

    fn handle_keys(&mut self, key: Key) {
        match self {
            MenuDialog::Sorting(dialog) => dialog.handle_keys(key),
            MenuDialog::Options(dialog) => dialog.handle_keys(key),
        }
    }

    fn request_config_change(&self) -> (r: bool) {
        match self {
            MenuDialog::Sorting(dialog) => dialog.request_config_change(),
            MenuDialog::Options(dialog) => dialog.request_config_change(),
        }
    }

    fn should_quit(&self) -> (r: bool) {
        match self {
            MenuDialog::Sorting(dialog) => dialog.should_quit(),
            MenuDialog::Options(dialog) => dialog.should_quit(),
        }
    }
}

/// What the passing of time does to the screen, and what the screen then
/// asks for; `event` is what came out of the channel of the worker, if a
/// transfer is on the screen.
///
/// A transfer takes the event. A dialog that is done is closed. A dialog of
/// the menu bar that is done and asks for the settings to change has them
/// changed, and the panels that the change concerns are to be read anew:
/// the left one for the first group of the menu, both for the second, the
/// right one for the third.
pub open spec fn ticks(
    before: UserInterfaceView,
    after: UserInterfaceView,
    event: WorkerEvent,
    request: RequestView,
) -> bool {
    let quiet = request is Nothing;
    match before.dialog {
        None => quiet && after == before,
        Some(DialogView::Help { quits }) => quiet && after == if quits {
            before.closed()
        } else {
            before
        },
        Some(DialogView::Copy { state, source, destination }) => quiet && after == if state.polled(
            event,
        ).should_quit {
            before.closed()
        } else {
            UserInterfaceView {
                dialog: Some(DialogView::Copy { state: state.polled(event), source, destination }),
                ..before
            }
        },
        Some(DialogView::Move { state, source, destination }) => quiet && after == if state.polled(
            event,
        ).should_quit {
            before.closed()
        } else {
            UserInterfaceView {
                dialog: Some(DialogView::Move { state: state.polled(event), source, destination }),
                ..before
            }
        },
        Some(DialogView::MkDir { input: state, parent }) => quiet && after == if state.hide {
            before.closed()
        } else {
            before
        },
        Some(DialogView::RmDir { deletion: state, targets }) => quiet && after == if state.should_quit {
            before.closed()
        } else {
            before
        },
        Some(DialogView::Menu(dialog)) => if !menu_dialog_quits(dialog) {
            quiet && after == before
        } else if !menu_dialog_changes(dialog) || before.top_menu.selected_item_idx > 2 {
            quiet && after == before.closed()
        } else {
            &&& after == (UserInterfaceView {
                config: changed_config(before.config, dialog, before.active_panel),
                ..before.closed()
            })
            &&& request == if before.top_menu.selected_item_idx == 0 {
                RequestView::ReloadLeft
            } else if before.top_menu.selected_item_idx == 1 {
                RequestView::ReloadBoth
            } else {
                RequestView::ReloadRight
            }
        },
    }
}

/// The panel `after` is `before` with the sort of the settings, shown anew
/// from what was read.
pub open spec fn is_reloaded_with_sort(
    before: TableViewView,
    after: TableViewView,
    settings: TableConfigurationView,
    read: Result<Vec<DirEntryData>, IoError>,
) -> bool {
    let configured = TableViewModelView {
        predicate: predicate_from_text(settings.sort_predicate),
        direction: direction_from_text(settings.sort_direction),
        ..before.model
    };
    &&& after.is_active == before.is_active
    &&& match read {
        Ok(entries) => has_refreshed(
            configured,
            after.model,
            listing_of(entries@, configured.show_hidden_files),
        ),
        Err(error) => after.model == (TableViewModelView {
            last_error: Some(error.message@),
            ..configured
        }),
    }
}

/// The panel `after` is `before` with the options of the settings, shown
/// anew from what was read.
pub open spec fn is_reloaded_with_options(
    before: TableViewView,
    after: TableViewView,
    show_hidden_files: bool,
    read: Result<Vec<DirEntryData>, IoError>,
) -> bool {
    let configured = TableViewModelView { show_hidden_files, ..before.model };
    &&& after.is_active == before.is_active
    &&& match read {
        Ok(entries) => has_refreshed(
            configured,
            after.model,
            listing_of(entries@, configured.show_hidden_files),
        ),
        Err(error) => after.model == (TableViewModelView {
            last_error: Some(error.message@),
            ..configured
        }),
    }
}

/// The settings of a panel as the panel is now: its directory and its sort.
pub open spec fn settings_of(panel: TableViewView) -> TableConfigurationView {
    TableConfigurationView {
        path: path_text(panel.model.cwd),
        sort_predicate: predicate_keyword(panel.model.predicate),
        sort_direction: direction_keyword(panel.model.direction),
    }
}

/// The whole screen.
#[derive(Debug)]
pub struct UserInterface {
    active_panel: ActivePanel,
    config: Configuration,
    dialog: Option<Dialog>,
    top_menu: MenuState,
    left_panel: TableView,
    right_panel: TableView,
    focused_widget: Widgets,
    input_mode: InputMode,
}

impl View for UserInterface {
    type V = UserInterfaceView;

    closed spec fn view(&self) -> UserInterfaceView {
        UserInterfaceView {
            active_panel: self.active_panel,
            config: self.config@,
            dialog: dialog_view(self.dialog),
            top_menu: self.top_menu@,
            left_panel: self.left_panel@,
            right_panel: self.right_panel@,
            focused_widget: self.focused_widget,
            input_mode: self.input_mode,
        }
    }
}

impl UserInterface {
    /// The screen at the start, given the settings and what was read of
    /// the directories that they name for the two panels. The left panel
    /// has the focus and takes the keys.
    pub fn new(
        config: Configuration,
        left_read: Result<Vec<DirEntryData>, IoError>,
        right_read: Result<Vec<DirEntryData>, IoError>,
    ) -> (r: Self)
        ensures
            r@.active_panel == ActivePanel::Left,
            r@.config == config@,
            r@.dialog is None,
            r@.top_menu == premade_menu(),
            r@.focused_widget == Widgets::TwinPanel,
            r@.input_mode == InputMode::Normal,
            r@.left_panel.is_active,
            !r@.right_panel.is_active,
            is_opened(
                r@.left_panel.model,
                config@.left_table,
                config@.show_hidden_files,
                left_read,
            ),
            is_opened(
                r@.right_panel.model,
                config@.right_table,
                config@.show_hidden_files,
                right_read,
            ),
    {
        let mut left_panel = TableView::new(config.left_table_config(), &config, left_read);
        left_panel.activate();
        let right_panel = TableView::new(config.right_table_config(), &config, right_read);
        UserInterface {
            active_panel: ActivePanel::Left,
            config,
            dialog: None,
            top_menu: MenuState::new_premade(),
            left_panel,
            right_panel,
            focused_widget: Widgets::TwinPanel,
            input_mode: InputMode::Normal,
        }
    }

    /// The settings.
    pub fn config(&self) -> (r: &Configuration)
        ensures
            r@ == self@.config,
    {
        &self.config
    }

    /// Where the keys go.
    pub fn input_mode(&self) -> (r: InputMode)
        ensures
            r == self@.input_mode,
    {
        self.input_mode
    }

    /// The panel that the keys go to.
    pub fn active_panel(&self) -> (r: ActivePanel)
        ensures
            r == self@.active_panel,
    {
        self.active_panel
    }

    /// What has the focus.
    pub fn focused_widget(&self) -> (r: Widgets)
        ensures
            r == self@.focused_widget,
    {
        self.focused_widget
    }

    /// The dialog on the screen.
    pub fn dialog(&self) -> (r: &Option<Dialog>)
        ensures
            dialog_view(*r) == self@.dialog,
    {
        &self.dialog
    }

    /// The menu bar.
    pub fn top_menu(&self) -> (r: &MenuState)
        ensures
            r@ == self@.top_menu,
    {
        &self.top_menu
    }

    pub fn left_panel(&self) -> (r: &TableView)
        ensures
            r@ == self@.left_panel,
    {
        &self.left_panel
    }

    pub fn right_panel(&self) -> (r: &TableView)
        ensures
            r@ == self@.right_panel,
    {
        &self.right_panel
    }

    /// The panel that the keys go to.
    fn active(&self) -> (r: &TableView)
        ensures
            r@ == self@.active(),
    {
        match self.active_panel {
            ActivePanel::Left => &self.left_panel,
            ActivePanel::Right => &self.right_panel,
        }
    }

    /// The other panel.
    fn passive(&self) -> (r: &TableView)
        ensures
            r@ == self@.passive(),
    {
        match self.active_panel {
            ActivePanel::Left => &self.right_panel,
            ActivePanel::Right => &self.left_panel,
        }
    }

    /// The panel that the keys go to.
    fn active_panel_mut(&mut self) -> (r: &mut TableView)
        ensures
            r@ == old(self)@.active(),
            final(self)@ == old(self)@.with_active(final(r)@),
    {
        match self.active_panel {
            ActivePanel::Left => &mut self.left_panel,
            ActivePanel::Right => &mut self.right_panel,
        }
    }

    /// Takes a key, and says what has to be done for the screen now.
    pub fn handle_key(&mut self, key: Key) -> (request: Request)
        ensures
            handles(old(self)@, final(self)@, key, request@),
    {
        match self.input_mode {
            InputMode::Normal => self.handle_key_in_panels(key),
            InputMode::Menu => {
                self.handle_key_in_menu(key);
                Request::Nothing
            },
            InputMode::Editing => self.handle_key_in_dialog(key),
        }
    }

    fn handle_key_in_panels(&mut self, key: Key) -> (request: Request)
        ensures
            handles_in_panels(old(self)@, final(self)@, key, request@),
    {
        match key {
            Key::Char(c) => {
                if c == '\t' {
                    self.switch_focused_panel();
                    Request::Nothing
                } else if c == '\n' {
                    match self.active().model().cd_target() {
                        Ok(target) => Request::ReadDir(target.path),
                        Err(_) => Request::Nothing,
                    }
                } else {
                    Request::Nothing
                }
            },
            Key::Home => {
                self.active_panel_mut().select_first();
                Request::Nothing
            },
            Key::End => {
                self.active_panel_mut().select_last();
                Request::Nothing
            },
            Key::Up => {
                self.active_panel_mut().select_previous();
                Request::Nothing
            },
            Key::Down => {
                self.active_panel_mut().select_next();
                Request::Nothing
            },
            Key::Ctrl(c) => {
                if c == 'n' {
                    self.active_panel_mut().sort_by(TableSortPredicate::Name);
                } else if c == 'l' {
                    self.active_panel_mut().sort_by(TableSortPredicate::LastModified);
                } else if c == 's' {
                    self.active_panel_mut().sort_by(TableSortPredicate::Size);
                } else if c == 'u' {
                    self.active_panel_mut().set_direction(TableSortDirection::Ascending);
                } else if c == 'd' {
                    self.active_panel_mut().set_direction(TableSortDirection::Descending);
                }
                Request::Nothing
            },
            Key::F(n) => {
                if n == 1 {
                    self.input_mode = InputMode::Editing;
                    self.create_help_dialog();
                } else if n == 5 {
                    match self.create_copy_dialog() {
                        Ok(copy_dialog) => {
                            self.open_dialog(Dialog::Copy(copy_dialog));
                        },
                        Err(_) => {},
                    }
                } else if n == 6 {
                    match self.create_move_dialog() {
                        Ok(move_dialog) => {
                            self.open_dialog(Dialog::Move(move_dialog));
                        },
                        Err(_) => {},
                    }
                } else if n == 7 {
                    let parent_dir = self.active().pwd().duplicate();
                    self.open_dialog(Dialog::MkDir(MkDirDialog::new(parent_dir)));
                } else if n == 8 {
                    match self.create_rm_dialog() {
                        Ok(rm_dialog) => {
                            self.open_dialog(Dialog::RmDir(rm_dialog));
                        },
                        Err(_) => {},
                    }
                } else if n == 9 {
                    self.top_menu.activate();
                    self.input_mode = InputMode::Menu;
                }
                Request::Nothing
            },
            _ => Request::Nothing,
        }
    }

    fn handle_key_in_menu(&mut self, key: Key)
        ensures
            final(self)@ == keyed_in_menu(old(self)@, key),
    {
        match key {
            Key::Left => self.top_menu.select_previous(),
            Key::Right => self.top_menu.select_next(),
            Key::Up => self.top_menu.up(),
            Key::Down => self.top_menu.down(),
            Key::Esc => {
                self.top_menu.deactivate();
                self.input_mode = InputMode::Normal;
            },
            Key::F(n) => {
                if n == 9 {
                    self.top_menu.deactivate();
                    self.input_mode = InputMode::Normal;
                }
            },
            Key::Char(c) => {
                if c == '\n' {
                    self.input_mode = InputMode::Editing;
                    self.create_menu_dialog();
                }
            },
            _ => {},
        }
    }

    fn handle_key_in_dialog(&mut self, key: Key) -> (request: Request)
        ensures
            handles_in_dialog(old(self)@, final(self)@, key, request@),
    {
        let escape = match key {
            Key::Esc => true,
            _ => false,
        };
        let mut taken: Option<Dialog> = None;
        core::mem::swap(&mut self.dialog, &mut taken);
        match taken {
            None => Request::Nothing,
            Some(Dialog::Help(mut dialog)) => {
                dialog.handle_key(key);
                self.dialog = Some(Dialog::Help(dialog));
                Request::Nothing
            },
            Some(Dialog::Copy(mut dialog)) => {
                if escape {
                    self.close_dialog();
                    Request::Nothing
                } else {
                    let start = dialog.handle_key(key);
                    self.dialog = Some(Dialog::Copy(dialog));
                    if start {
                        Request::StartTransfer
                    } else {
                        Request::Nothing
                    }
                }
            },
            Some(Dialog::Move(mut dialog)) => {
                if escape {
                    self.close_dialog();
                    Request::Nothing
                } else {
                    let start = dialog.handle_key(key);
                    self.dialog = Some(Dialog::Move(dialog));
                    if start {
                        Request::StartTransfer
                    } else {
                        Request::Nothing
                    }
                }
            },
            Some(Dialog::MkDir(mut dialog)) => {
                if escape {
                    self.close_dialog();
                    Request::Nothing
                } else {
                    let create = dialog.handle_key(key);
                    self.dialog = Some(Dialog::MkDir(dialog));
                    match create {
                        Some(path) => Request::MakeDir(path),
                        None => Request::Nothing,
                    }
                }
            },
            Some(Dialog::RmDir(mut dialog)) => {
                if escape {
                    self.close_dialog();
                    Request::Nothing
                } else {
                    let delete = dialog.handle_keys(key);
                    self.dialog = Some(Dialog::RmDir(dialog));
                    if delete {
                        Request::DeleteFiles
                    } else {
                        Request::Nothing
                    }
                }
            },
            Some(Dialog::Menu(mut dialog)) => {
                if escape {
                    self.close_dialog();
                } else {
                    dialog.handle_keys(key);
                    self.dialog = Some(Dialog::Menu(dialog));
                }
                Request::Nothing
            },
        }
    }

    /// Gives the focus from the panel that has it to the other.
    pub fn switch_focused_panel(&mut self)
        ensures
            final(self)@ == old(self)@.switched(),
    {
        if self.left_panel.is_active() {
            self.left_panel.deactivate();
            self.right_panel.activate();
        } else if self.right_panel.is_active() {
            self.right_panel.deactivate();
            self.left_panel.activate();
        }
        self.active_panel.switch();
    }

    /// Changes the directory of the panel that the keys go to, as its
    /// cursor says, given what was read of the directory that
    /// [`Self::handle_key`] asked for.
    pub fn change_dir(&mut self, read: Result<Vec<DirEntryData>, IoError>)
        ensures
            final(self)@ == old(self)@.with_active(final(self)@.active()),
            final(self)@.active().is_active == old(self)@.active().is_active,
            has_changed_dir(old(self)@.active().model, final(self)@.active().model, read),
    {
        self.active_panel_mut().change_dir(read);
    }

    /// Says how making the directory went that the dialog asked for.
    pub fn dir_created(&mut self, result: Result<(), IoError>)
        ensures
            final(self)@ == (UserInterfaceView {
                dialog: match old(self)@.dialog {
                    Some(DialogView::MkDir { input, parent }) => Some(
                        DialogView::MkDir { input: input.created(result), parent },
                    ),
                    other => other,
                },
                ..old(self)@
            }),
    {
        let mut taken: Option<Dialog> = None;
        core::mem::swap(&mut self.dialog, &mut taken);
        match taken {
            Some(Dialog::MkDir(mut dialog)) => {
                dialog.created(result);
                self.dialog = Some(Dialog::MkDir(dialog));
            },
            other => {
                self.dialog = other;
            },
        }
    }

    /// Says that the paths were removed that the dialog asked for.
    pub fn files_deleted(&mut self)
        ensures
            final(self)@ == (UserInterfaceView {
                dialog: match old(self)@.dialog {
                    Some(DialogView::RmDir { deletion, targets }) => Some(
                        DialogView::RmDir { deletion: deletion.done(), targets },
                    ),
                    other => other,
                },
                ..old(self)@
            }),
    {
        let mut taken: Option<Dialog> = None;
        core::mem::swap(&mut self.dialog, &mut taken);
        match taken {
            Some(Dialog::RmDir(mut dialog)) => {
                dialog.deleted();
                self.dialog = Some(Dialog::RmDir(dialog));
            },
            other => {
                self.dialog = other;
            },
        }
    }

    /// Lets time pass, and says what has to be done for the screen now;
    /// `event` is what came out of the channel of the worker, for a
    /// transfer on the screen.
    pub fn tick(&mut self, event: WorkerEvent) -> (request: Request)
        ensures
            ticks(old(self)@, final(self)@, event, request@),
    {
        let mut taken: Option<Dialog> = None;
        core::mem::swap(&mut self.dialog, &mut taken);
        match taken {
            None => Request::Nothing,
            Some(Dialog::Help(dialog)) => {
                if dialog.should_quit() {
                    self.close_dialog();
                } else {
                    self.dialog = Some(Dialog::Help(dialog));
                }
                Request::Nothing
            },
            Some(Dialog::Copy(mut dialog)) => {
                dialog.poll(event);
                if dialog.should_quit() {
                    self.close_dialog();
                } else {
                    self.dialog = Some(Dialog::Copy(dialog));
                }
                Request::Nothing
            },
            Some(Dialog::Move(mut dialog)) => {
                dialog.poll(event);
                if dialog.should_quit() {
                    self.close_dialog();
                } else {
                    self.dialog = Some(Dialog::Move(dialog));
                }
                Request::Nothing
            },
            Some(Dialog::MkDir(dialog)) => {
                if dialog.should_hide() {
                    self.close_dialog();
                } else {
                    self.dialog = Some(Dialog::MkDir(dialog));
                }
                Request::Nothing
            },
            Some(Dialog::RmDir(dialog)) => {
                if dialog.should_quit() {
                    self.close_dialog();
                } else {
                    self.dialog = Some(Dialog::RmDir(dialog));
                }
                Request::Nothing
            },
            Some(Dialog::Menu(dialog)) => {
                if !dialog.should_quit() {
                    self.dialog = Some(Dialog::Menu(dialog));
                    return Request::Nothing;
                }
                let selected_menu_item = self.top_menu.selected_item();
                self.close_dialog();
                if !dialog.request_config_change() || selected_menu_item > 2 {
                    return Request::Nothing;
                }
                dialog.change_configuration(&mut self.config, self.active_panel);
                if selected_menu_item == 0 {
                    Request::ReloadLeft
                } else if selected_menu_item == 1 {
                    Request::ReloadBoth
                } else {
                    Request::ReloadRight
                }
            },
        }
    }

    /// Gives the left panel the sort of the settings and shows its
    /// directory anew, given what was read of it.
    pub fn reload_left(&mut self, read: Result<Vec<DirEntryData>, IoError>)
        ensures
            final(self)@ == (UserInterfaceView {
                left_panel: final(self)@.left_panel,
                ..old(self)@
            }),
            is_reloaded_with_sort(
                old(self)@.left_panel,
                final(self)@.left_panel,
                old(self)@.config.left_table,
                read,
            ),
    {
        self.left_panel.update_config(self.config.left_table_config(), read);
    }

    /// Gives the right panel the sort of the settings and shows its
    /// directory anew, given what was read of it.
    pub fn reload_right(&mut self, read: Result<Vec<DirEntryData>, IoError>)
        ensures
            final(self)@ == (UserInterfaceView {
                right_panel: final(self)@.right_panel,
                ..old(self)@
            }),
            is_reloaded_with_sort(
                old(self)@.right_panel,
                final(self)@.right_panel,
                old(self)@.config.right_table,
                read,
            ),
    {
        self.right_panel.update_config(self.config.right_table_config(), read);
    }

    /// Gives both panels the options of the settings and shows their
    /// directories anew, given what was read of them.
    pub fn reload_both(
        &mut self,
        left_read: Result<Vec<DirEntryData>, IoError>,
        right_read: Result<Vec<DirEntryData>, IoError>,
    )
        ensures
            final(self)@ == (UserInterfaceView {
                left_panel: final(self)@.left_panel,
                right_panel: final(self)@.right_panel,
                ..old(self)@
            }),
            is_reloaded_with_options(
                old(self)@.left_panel,
                final(self)@.left_panel,
                old(self)@.config.show_hidden_files,
                left_read,
            ),
            is_reloaded_with_options(
                old(self)@.right_panel,
                final(self)@.right_panel,
                old(self)@.config.show_hidden_files,
                right_read,
            ),
    {
        self.left_panel.change_config(&self.config, left_read);
        self.right_panel.change_config(&self.config, right_read);
    }

    /// Writes into the settings what the panels show and how they are
    /// sorted.
    pub fn update_config(&mut self)
        ensures
            final(self)@ == (UserInterfaceView {
                config: ConfigurationView {
                    left_table: settings_of(old(self)@.left_panel),
                    right_table: settings_of(old(self)@.right_panel),
                    ..old(self)@.config
                },
                ..old(self)@
            }),
    {
        let left_path = self.left_panel.pwd().display();
        let left_sort_predicate = self.left_panel.sort_predicate();
        let left_sort_dir = self.left_panel.sort_direction();
        let right_path = self.right_panel.pwd().display();
        let right_sort_predicate = self.right_panel.sort_predicate();
        let right_sort_dir = self.right_panel.sort_direction();

        let left = self.config.left_table_config_mut();
        left.set_path(left_path);
        left.set_predicate(left_sort_predicate.keyword());
        left.set_sort_direction(left_sort_dir.keyword());
        let right = self.config.right_table_config_mut();
        right.set_path(right_path);
        right.set_predicate(right_sort_predicate.keyword());
        right.set_sort_direction(right_sort_dir.keyword());
    }

    fn create_help_dialog(&mut self)
        ensures
            final(self)@ == (UserInterfaceView {
                dialog: Some(DialogView::Help { quits: false }),
                ..old(self)@
            }),
    {
        self.dialog = Some(Dialog::Help(HelpDialog::new()));
    }

    fn create_move_dialog(&self) -> (r: Result<TransferDialog<MoveStrategy>, ShowDialogError>)
        ensures
            match selected_file(self@.active()) {
                Some(source) => r is Ok && (Dialog::Move(r->Ok_0))@ == (DialogView::Move {
                    state: TransferState::initial(),
                    source,
                    destination: self@.passive().model.cwd,
                }),
                None => r == Err::<TransferDialog<MoveStrategy>, ShowDialogError>(
                    ShowDialogError::NoSelectedSource,
                ),
            },
    {
        match self.active().get_selected_file() {
            Some(selected_file) => Ok(
                TransferDialog::new(selected_file, self.passive().pwd().duplicate(), MoveStrategy),
            ),
            None => Err(ShowDialogError::NoSelectedSource),
        }
    }

    fn create_copy_dialog(&self) -> (r: Result<TransferDialog<CopyStrategy>, ShowDialogError>)
        ensures
            match selected_file(self@.active()) {
                Some(source) => r is Ok && (Dialog::Copy(r->Ok_0))@ == (DialogView::Copy {
                    state: TransferState::initial(),
                    source,
                    destination: self@.passive().model.cwd,
                }),
                None => r == Err::<TransferDialog<CopyStrategy>, ShowDialogError>(
                    ShowDialogError::NoSelectedSource,
                ),
            },
    {
        match self.active().get_selected_file() {
            Some(selected_file) => Ok(
                TransferDialog::new(selected_file, self.passive().pwd().duplicate(), CopyStrategy),
            ),
            None => Err(ShowDialogError::NoSelectedSource),
        }
    }

    fn create_rm_dialog(&self) -> (r: Result<RmDirDialog, ShowDialogError>)
        ensures
            match selected_file(self@.active()) {
                Some(target) => r is Ok && (Dialog::RmDir(r->Ok_0))@ == (DialogView::RmDir {
                    deletion: DeleteState::initial(),
                    targets: seq![target],
                }),
                None => r == Err::<RmDirDialog, ShowDialogError>(ShowDialogError::NoSelectedSource),
            },
    {
        match self.active().get_selected_file() {
            Some(selected_file) => {
                let mut files: Vec<PanelPath> = Vec::new();
                files.push(selected_file);
                let dialog = RmDirDialog::new(files);
                assert(dialog.targets() =~= seq![selected_file@]);
                Ok(dialog)
            },
            None => Err(ShowDialogError::NoSelectedSource),
        }
    }

    fn create_menu_dialog(&mut self)
        ensures
            final(self)@ == (UserInterfaceView {
                top_menu: old(self)@.top_menu.with_selected(false),
                dialog: menu_dialog_for(old(self)@),
                ..old(self)@
            }),
    {
        let selected_item_idx = self.top_menu.selected_item();
        if selected_item_idx == 0 {
            let predicate = self.left_panel.sort_predicate();
            let direction = self.left_panel.sort_direction();
            self.dialog = Some(
                Dialog::Menu(MenuDialog::Sorting(SortingDialog::new(predicate, direction))),
            );
        } else if selected_item_idx == 1 {
            self.dialog = Some(
                Dialog::Menu(MenuDialog::Options(PanelOpionsDialog::new(&self.config))),
            );
        } else if selected_item_idx == 2 {
            let predicate = self.right_panel.sort_predicate();
            let direction = self.right_panel.sort_direction();
            self.dialog = Some(
                Dialog::Menu(MenuDialog::Sorting(SortingDialog::new(predicate, direction))),
            );
        }
        self.top_menu.deactivate();
    }

    fn open_dialog(&mut self, dialog: Dialog)
        ensures
            final(self)@ == old(self)@.opened(dialog@),
    {
        self.dialog = Some(dialog);
        self.focused_widget = Widgets::Dialog;
        self.input_mode = InputMode::Editing;
    }

    fn close_dialog(&mut self)
        ensures
            final(self)@ == old(self)@.closed(),
    {
        self.input_mode = InputMode::Normal;
        self.dialog = None;
        self.focused_widget = Widgets::TwinPanel;
    }
}

} // verus!
