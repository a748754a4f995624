//! The dialog that sets how a panel is sorted: a list of columns, a list of
//! directions, and two buttons.

use vstd::prelude::*;
use vstd::string::StringExecFns;
use crate::config::{Configuration, ConfigurationView, TableConfigurationView};
use crate::keys::{key_is_enter, Buttons, Key};
use crate::sort::{
    direction_from_index, direction_keyword, predicate_from_index, predicate_keyword,
    TableSortDirection, TableSortPredicate,
};
use crate::ui::ActivePanel;

verus! {

/// The mark of an option that is chosen.
pub const CHECK_MARK: &'static str = "X";

/// The part of the dialog that takes the keys.
#[derive(Copy, Clone, Debug, PartialEq, Eq, Structural)]
pub enum Components {
    PredicateColumn,
    DirectionColumn,
    Buttons,
}

/// The state of a [`SortingDialog`].
#[derive(Copy, Clone, Debug, PartialEq, Eq, Structural)]
pub struct SortingState {
    pub components: Components,
    pub change_config: bool,
    pub focused_button: Buttons,
    /// The column that is chosen.
    pub predicate: TableSortPredicate,
    /// The place of the cursor in the list of columns.
    pub predicate_selected: usize,
    /// The place that the list of columns shows as the cursor's, if it
    /// shows one.
    pub predicate_shown: Option<usize>,
    /// The direction that is chosen.
    pub direction: TableSortDirection,
    /// The place of the cursor in the list of directions.
    pub direction_selected: usize,
    /// The place that the list of directions shows as the cursor's, if it
    /// shows one.
    pub direction_shown: Option<usize>,
    pub should_quit: bool,
}

/// The number of a column in the list.
pub open spec fn predicate_index(predicate: TableSortPredicate) -> usize {
    match predicate {
        TableSortPredicate::Name => 0,
        TableSortPredicate::Size => 1,
        TableSortPredicate::LastModified => 2,
    }
}

/// The number of a direction in the list.
pub open spec fn direction_index(direction: TableSortDirection) -> usize {
    match direction {
        TableSortDirection::Ascending => 0,
        TableSortDirection::Descending => 1,
    }
}

impl SortingState {
    /// The state of a new dialog for a panel that is sorted as given: the
    /// keys go to the list of columns, the cursors stand on what is
    /// chosen, and the focus is on the cancelling button.
    pub open spec fn initial(predicate: TableSortPredicate, direction: TableSortDirection)
        -> SortingState {
        SortingState {
            components: Components::PredicateColumn,
            change_config: false,
            focused_button: Buttons::Cancel,
            predicate,
            predicate_selected: predicate_index(predicate),
            predicate_shown: Some(predicate_index(predicate)),
            direction,
            direction_selected: direction_index(direction),
            direction_shown: None,
            should_quit: false,
        }
    }

    /// The cursors stand on places of their lists.
    pub open spec fn in_range(self) -> bool {
        self.predicate_selected <= 2 && self.direction_selected <= 1
    }

    /// The state after a key, while the keys go to the list of columns.
    pub open spec fn keyed_in_predicates(self, key: Key) -> SortingState {
        let to_directions = SortingState {
            components: Components::DirectionColumn,
            predicate_shown: None,
            direction_shown: Some(self.direction_selected),
            ..self
        };
        match key {
            Key::Right => to_directions,
            Key::Up => if self.predicate_selected > 0 {
                SortingState {
                    predicate_selected: (self.predicate_selected - 1) as usize,
                    predicate_shown: Some((self.predicate_selected - 1) as usize),
                    ..self
                }
            } else {
                self
            },
            Key::Down => if self.predicate_selected >= 2 {
                to_directions
            } else {
                SortingState {
                    predicate_selected: (self.predicate_selected + 1) as usize,
                    predicate_shown: Some((self.predicate_selected + 1) as usize),
                    ..self
                }
            },
            Key::Char(c) => if c == '\n' {
                SortingState { predicate: predicate_from_index(self.predicate_selected), ..self }
            } else {
                self
            },
            _ => self,
        }
    }

    /// The state after a key, while the keys go to the list of directions.
    pub open spec fn keyed_in_directions(self, key: Key) -> SortingState {
        match key {
            Key::Left => SortingState {
                components: Components::PredicateColumn,
                direction_shown: None,
                predicate_shown: Some(self.predicate_selected),
                ..self
            },
            Key::Up => if self.direction_selected != 0 {
                SortingState {
                    direction_selected: (self.direction_selected - 1) as usize,
                    direction_shown: Some((self.direction_selected - 1) as usize),
                    ..self
                }
            } else {
                self
            },
            Key::Down => if self.direction_selected >= 1 {
                SortingState { components: Components::Buttons, direction_shown: None, ..self }
            } else {
                SortingState {
                    direction_selected: (self.direction_selected + 1) as usize,
                    direction_shown: Some((self.direction_selected + 1) as usize),
                    ..self
                }
            },
            Key::Char(c) => if c == '\n' {
                SortingState { direction: direction_from_index(self.direction_selected), ..self }
            } else {
                self
            },
            _ => self,
        }
    }

    /// The state after a key, while the keys go to the buttons.
    pub open spec fn keyed_in_buttons(self, key: Key) -> SortingState {
        match key {
            Key::Left | Key::Right => SortingState {
                focused_button: self.focused_button.other(),
                ..self
            },
            Key::Up => SortingState {
                components: Components::PredicateColumn,
                predicate_shown: Some(self.predicate_selected),
                ..self
            },
            Key::Down => SortingState {
                components: Components::DirectionColumn,
                direction_shown: Some(self.direction_selected),
                ..self
            },
            Key::Char(c) => if c == '\n' {
                match self.focused_button {
                    Buttons::Confirm => SortingState {
                        change_config: true,
                        should_quit: true,
                        ..self
                    },
                    Buttons::Cancel => SortingState {
                        change_config: false,
                        should_quit: true,
                        ..self
                    },
                }
            } else {
                self
            },
            _ => self,
        }
    }

    /// The state after a key.
    ///
    /// In a list, up and down move the cursor, and Enter chooses what is
    /// under it. Right leads from the columns to the directions and left
    /// leads back; down leads from the last column to the directions and
    /// from the last direction to the buttons. At the buttons, left and
    /// right move the focus, up leads to the columns and down to the
    /// directions, and Enter closes the dialog: the confirming button asks
    /// for the change, the cancelling one does not.
    pub open spec fn keyed(self, key: Key) -> SortingState {
        match self.components {
            Components::PredicateColumn => self.keyed_in_predicates(key),
            Components::DirectionColumn => self.keyed_in_directions(key),
            Components::Buttons => self.keyed_in_buttons(key),
        }
    }
}

/// Whatever key comes, the cursors stay on places of their lists.
pub proof fn lemma_sorting_cursors_stay_in_range(state: SortingState, key: Key)
    requires
        state.in_range(),
    ensures
        state.keyed(key).in_range(),
        SortingState::initial(state.predicate, state.direction).in_range(),
{
}

/// The line of an option: a box with the mark if the option is chosen, then
/// the title.
pub open spec fn option_text(checked: bool, title: Seq<char>) -> Seq<char> {
    if checked {
        "[X] "@ + title
    } else {
        "[ ] "@ + title
    }
}

/// The line of an option.
pub fn option_label(checked: bool, title: &str) -> (r: String)
    ensures
        r@ == option_text(checked, title@),
{
    let mut text = if checked {
        "[X] ".to_owned()
    } else {
        "[ ] ".to_owned()
    };
    text.append(title);
    text
}

/// The settings with the sort of the given panel replaced.
pub open spec fn with_sort(
    config: ConfigurationView,
    panel: ActivePanel,
    predicate: TableSortPredicate,
    direction: TableSortDirection,
) -> ConfigurationView {
    match panel {
        ActivePanel::Left => ConfigurationView {
            left_table: TableConfigurationView {
                sort_predicate: predicate_keyword(predicate),
                sort_direction: direction_keyword(direction),
                ..config.left_table
            },
            ..config
        },
        ActivePanel::Right => ConfigurationView {
            right_table: TableConfigurationView {
                sort_predicate: predicate_keyword(predicate),
                sort_direction: direction_keyword(direction),
                ..config.right_table
            },
            ..config
        },
    }
}

/// The dialog that sets how a panel is sorted.
#[derive(Debug)]
pub struct SortingDialog {
    state: SortingState,
}

impl SortingDialog {
    /// The state of the dialog.
    pub closed spec fn view_state(&self) -> SortingState {
        self.state
    }

    /// A dialog for a panel that is sorted as given.
    pub fn new(predicate: TableSortPredicate, direction: TableSortDirection) -> (r: Self)
        ensures
            r.view_state() == SortingState::initial(predicate, direction),
    {
        SortingDialog {
            state: SortingState {
                components: Components::PredicateColumn,
                change_config: false,
                focused_button: Buttons::Cancel,
                predicate,
                predicate_selected: predicate.as_usize(),
                predicate_shown: Some(predicate.as_usize()),
                direction,
                direction_selected: direction.as_usize(),
                direction_shown: None,
                should_quit: false,
            },
        }
    }

    /// The state of the dialog.
    pub fn state(&self) -> (r: SortingState)
        ensures
            r == self.view_state(),
    {
        self.state
    }

    /// Takes a key.
    pub fn handle_keys(&mut self, key: Key)
        ensures
            final(self).view_state() == old(self).view_state().keyed(key),
    {
        let s = self.state;
        let enter = key_is_enter(key);
        self.state = match s.components {
            Components::PredicateColumn => match key {
                Key::Right => SortingState {
                    components: Components::DirectionColumn,
                    predicate_shown: None,
                    direction_shown: Some(s.direction_selected),
                    ..s
                },
                Key::Up => if s.predicate_selected > 0 {
                    SortingState {
                        predicate_selected: s.predicate_selected - 1,
                        predicate_shown: Some(s.predicate_selected - 1),
                        ..s
                    }
                } else {
                    s
                },
                Key::Down => if s.predicate_selected >= 2 {
                    SortingState {
                        components: Components::DirectionColumn,
                        predicate_shown: None,
                        direction_shown: Some(s.direction_selected),
                        ..s
                    }
                } else {
                    SortingState {
                        predicate_selected: s.predicate_selected + 1,
                        predicate_shown: Some(s.predicate_selected + 1),
                        ..s
                    }
                },
                _ => if enter {
                    SortingState {
                        predicate: TableSortPredicate::from(s.predicate_selected),
                        ..s
                    }
                } else {
                    s
                },
            },
            Components::DirectionColumn => match key {
                Key::Left => SortingState {
                    components: Components::PredicateColumn,
                    direction_shown: None,
                    predicate_shown: Some(s.predicate_selected),
                    ..s
                },
                Key::Up => if s.direction_selected != 0 {
                    SortingState {
                        direction_selected: s.direction_selected - 1,
                        direction_shown: Some(s.direction_selected - 1),
                        ..s
                    }
                } else {
                    s
                },
                Key::Down => if s.direction_selected >= 1 {
                    SortingState { components: Components::Buttons, direction_shown: None, ..s }
                } else {
                    SortingState {
                        direction_selected: s.direction_selected + 1,
                        direction_shown: Some(s.direction_selected + 1),
                        ..s
                    }
                },
                _ => if enter {
                    SortingState {
                        direction: TableSortDirection::from(s.direction_selected),
                        ..s
                    }
                } else {
                    s
                },
            },
            Components::Buttons => match key {
                Key::Left | Key::Right => SortingState {
                    focused_button: s.focused_button.toggled(),
                    ..s
                },
                Key::Up => SortingState {
                    components: Components::PredicateColumn,
                    predicate_shown: Some(s.predicate_selected),
                    ..s
                },
                Key::Down => SortingState {
                    components: Components::DirectionColumn,
                    direction_shown: Some(s.direction_selected),
                    ..s
                },
                _ => if enter {
                    match s.focused_button {
                        Buttons::Confirm => SortingState {
                            change_config: true,
                            should_quit: true,
                            ..s
                        },
                        Buttons::Cancel => SortingState {
                            change_config: false,
                            should_quit: true,
                            ..s
                        },
                    }
                } else {
                    s
                },
            },
        };
    }

    /// Whether the dialog is to be closed.
    pub fn should_quit(&self) -> (r: bool)
        ensures
            r == self.view_state().should_quit,
    {
        self.state.should_quit
    }

    /// Whether the settings are to be changed as the dialog says.
    pub fn request_config_change(&self) -> (r: bool)
        ensures
            r == self.view_state().change_config,
    {
        self.state.change_config
    }

    /// Writes what is chosen into the settings of the given panel.
    pub fn change_configuration(&self, config: &mut Configuration, active_panel: ActivePanel)
        ensures
            final(config)@ == with_sort(
                old(config)@,
                active_panel,
                self.view_state().predicate,
                self.view_state().direction,
            ),
    {
        let predicate = self.state.predicate.keyword();
        let direction = self.state.direction.keyword();
        match active_panel {
            ActivePanel::Left => {
                let table = config.left_table_config_mut();
                table.set_predicate(predicate);
                table.set_sort_direction(direction);
            },
            ActivePanel::Right => {
                let table = config.right_table_config_mut();
                table.set_predicate(predicate);
                table.set_sort_direction(direction);
            },
        }
    }

    /// The lines of the list of columns.
    pub fn predicate_options(&self) -> (r: Vec<String>)
        ensures
            r.len() == 3,
            r[0]@ == option_text(self.view_state().predicate == TableSortPredicate::Name, "Name"@),
            r[1]@ == option_text(self.view_state().predicate == TableSortPredicate::Size, "Size"@),
            r[2]@ == option_text(
                self.view_state().predicate == TableSortPredicate::LastModified,
                "Last modified"@,
            ),
    {
        let chosen = self.state.predicate.as_usize();
        let mut lines: Vec<String> = Vec::new();
        lines.push(option_label(chosen == 0, "Name"));
        lines.push(option_label(chosen == 1, "Size"));
        lines.push(option_label(chosen == 2, "Last modified"));
        lines
    }

    /// The lines of the list of directions.
    pub fn direction_options(&self) -> (r: Vec<String>)
        ensures
            r.len() == 2,
            r[0]@ == option_text(
                self.view_state().direction == TableSortDirection::Ascending,
                "Ascending"@,
            ),
            r[1]@ == option_text(
                self.view_state().direction == TableSortDirection::Descending,
                "Descending"@,
            ),
    {
        let chosen = self.state.direction.as_usize();
        let mut lines: Vec<String> = Vec::new();
        lines.push(option_label(chosen == 0, "Ascending"));
        lines.push(option_label(chosen == 1, "Descending"));
        lines
    }
}

} // verus!
