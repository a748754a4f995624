//! The dialog of the options that both panels share.

use vstd::prelude::*;
use crate::config::{Configuration, ConfigurationView};
use crate::keys::{key_is_enter, Buttons, Key};
use crate::sorting_dialog::{option_label, option_text};
use crate::ui::ActivePanel;

verus! {

/// The number of options in the list.
pub const OPTION_COUNT: usize = 1;

/// The part of the dialog that takes the keys.
#[derive(Copy, Clone, Debug, PartialEq, Eq, Structural)]
pub enum OptionComponents {
    OptionsList,
    Buttons,
}

/// The state of a [`PanelOpionsDialog`].
#[derive(Copy, Clone, Debug, PartialEq, Eq, Structural)]
pub struct PanelOptionsState {
    pub component: OptionComponents,
    pub focused_button: Buttons,
    /// The place that the list shows as the cursor's, if it shows one.
    pub list_shown: Option<usize>,
    pub request_config_change: bool,
    /// The place of the cursor in the list.
    pub selected_option: usize,
    pub should_quit: bool,
    pub show_hidden_files: bool,
}

impl PanelOptionsState {
    /// The state of a new dialog: the keys go to the list, the cursor
    /// stands on the first option, and the focus is on the cancelling
    /// button.
    pub open spec fn initial(show_hidden_files: bool) -> PanelOptionsState {
        PanelOptionsState {
            component: OptionComponents::OptionsList,
            focused_button: Buttons::Cancel,
            list_shown: Some(0),
            request_config_change: false,
            selected_option: 0,
            should_quit: false,
            show_hidden_files,
        }
    }

    /// The state after a key, while the keys go to the list.
    pub open spec fn keyed_in_list(self, key: Key) -> PanelOptionsState {
        let to_buttons = PanelOptionsState {
            component: OptionComponents::Buttons,
            list_shown: None,
            ..self
        };
        match key {
            Key::Up => if self.selected_option > 0 {
                PanelOptionsState {
                    selected_option: (self.selected_option - 1) as usize,
                    list_shown: Some((self.selected_option - 1) as usize),
                    ..self
                }
            } else {
                self
            },
            Key::Down => if self.selected_option + 1 >= OPTION_COUNT {
                to_buttons
            } else {
                PanelOptionsState {
                    selected_option: (self.selected_option + 1) as usize,
                    list_shown: Some((self.selected_option + 1) as usize),
                    ..self
                }
            },
            Key::Right => to_buttons,
            Key::Char(c) => if c == '\n' && self.selected_option == 0 {
                PanelOptionsState { show_hidden_files: !self.show_hidden_files, ..self }
            } else {
                self
            },
            _ => self,
        }
    }

    /// The state after a key, while the keys go to the buttons.
    pub open spec fn keyed_in_buttons(self, key: Key) -> PanelOptionsState {
        match key {
            Key::Up => PanelOptionsState {
                component: OptionComponents::OptionsList,
                list_shown: Some(self.selected_option),
                ..self
            },
            Key::Left | Key::Right => PanelOptionsState {
                focused_button: self.focused_button.other(),
                ..self
            },
            Key::Char(c) => if c == '\n' {
                match self.focused_button {
                    Buttons::Confirm => PanelOptionsState {
                        request_config_change: true,
                        should_quit: true,
                        ..self
                    },
                    Buttons::Cancel => PanelOptionsState { should_quit: true, ..self },
                }
            } else {
                self
            },
            _ => self,
        }
    }

    /// The state after a key.
    ///
    /// In the list, up and down move the cursor, Enter turns the option
    /// under it, and right, or down from the last option, leads to the
    /// buttons. At the buttons, left and right move the focus, up leads
    /// back, and Enter closes the dialog: the confirming button asks for
    /// the change, the cancelling one does not.
    pub open spec fn keyed(self, key: Key) -> PanelOptionsState {
        match self.component {
            OptionComponents::OptionsList => self.keyed_in_list(key),
            OptionComponents::Buttons => self.keyed_in_buttons(key),
        }
    }
}

/// The dialog of the options that both panels share.
#[derive(Debug)]
pub struct PanelOpionsDialog {
    state: PanelOptionsState,
}

impl PanelOpionsDialog {
    /// The state of the dialog.
    pub closed spec fn view_state(&self) -> PanelOptionsState {
        self.state
    }

    /// A dialog that shows the options as the settings have them.
    pub fn new(config: &Configuration) -> (r: Self)
        ensures
            r.view_state() == PanelOptionsState::initial(config@.show_hidden_files),
    {
        PanelOpionsDialog {
            state: PanelOptionsState {
                component: OptionComponents::OptionsList,
                focused_button: Buttons::Cancel,
                list_shown: Some(0),
                request_config_change: false,
                selected_option: 0,
                should_quit: false,
                show_hidden_files: config.show_hidden_files(),
            },
        }
    }

    /// The state of the dialog.
    pub fn state(&self) -> (r: PanelOptionsState)
        ensures
            r == self.view_state(),
    {
        self.state
    }

    /// Takes a key.
    pub fn handle_keys(&mut self, key: Key)
        ensures
            final(self).view_state() == old(self).view_state().keyed(key),
    {
        let s = self.state;
        let enter = key_is_enter(key);
        self.state = match s.component {
            OptionComponents::Buttons => match key {
                Key::Up => PanelOptionsState {
                    component: OptionComponents::OptionsList,
                    list_shown: Some(s.selected_option),
                    ..s
                },
                Key::Left | Key::Right => PanelOptionsState {
                    focused_button: s.focused_button.toggled(),
                    ..s
                },
                _ => if enter {
                    match s.focused_button {
                        Buttons::Confirm => PanelOptionsState {
                            request_config_change: true,
                            should_quit: true,
                            ..s
                        },
                        Buttons::Cancel => PanelOptionsState { should_quit: true, ..s },
                    }
                } else {
                    s
                },
            },
            OptionComponents::OptionsList => match key {
                Key::Up => if s.selected_option > 0 {
                    PanelOptionsState {
                        selected_option: s.selected_option - 1,
                        list_shown: Some(s.selected_option - 1),
                        ..s
                    }
                } else {
                    s
                },
                Key::Down => if s.selected_option >= OPTION_COUNT - 1 {
                    PanelOptionsState {
                        component: OptionComponents::Buttons,
                        list_shown: None,
                        ..s
                    }
                } else {
                    PanelOptionsState {
                        selected_option: s.selected_option + 1,
                        list_shown: Some(s.selected_option + 1),
                        ..s
                    }
                },
                Key::Right => PanelOptionsState {
                    component: OptionComponents::Buttons,
                    list_shown: None,
                    ..s
                },
                _ => if enter && s.selected_option == 0 {
                    PanelOptionsState { show_hidden_files: !s.show_hidden_files, ..s }
                } else {
                    s
                },
            },
        };
    }

    /// Whether the dialog is to be closed.
    pub fn should_quit(&self) -> (r: bool)
        ensures
            r == self.view_state().should_quit,
    {
        self.state.should_quit
    }

    /// Whether the settings are to be changed as the dialog says.
    pub fn request_config_change(&self) -> (r: bool)
        ensures
            r == self.view_state().request_config_change,
    {
        self.state.request_config_change
    }

    /// Writes the options into the settings. They are the same for both
    /// panels.
    pub fn change_configuration(&self, config: &mut Configuration, _active_panel: ActivePanel)
        ensures
            final(config)@ == (ConfigurationView {
                show_hidden_files: self.view_state().show_hidden_files,
                ..old(config)@
            }),
    {
        config.set_show_hidden_files(self.state.show_hidden_files)
    }

    /// The lines of the list.
    pub fn options(&self) -> (r: Vec<String>)
        ensures
            r.len() == OPTION_COUNT,
            r[0]@ == option_text(self.view_state().show_hidden_files, "Show hidden files"@),
    {
        let mut lines: Vec<String> = Vec::new();
        lines.push(option_label(self.state.show_hidden_files, "Show hidden files"));
        lines
    }
}

} // verus!
