//! The settings that outlive a run: for each panel the directory it shows
//! and how it is sorted, all held as text, the way they are stored.

use vstd::prelude::*;

verus! {

/// The name of the settings file.
pub const CONFIG_FILE_NAME: &'static str = "config.toml";

/// The directory, below the user's settings directory, that holds the file.
pub const CONFIG_DIR: &'static str = "twc";

/// The settings file, from the user's settings directory.
pub const CONFIG_FILE_PATH: &'static str = "twc/config.toml";

/// Where the settings file is kept when the user has no settings directory.
pub const CONFIG_FILE_PATH_FALLBACK: &'static str = ".";

/// The directory a panel shows when the settings name none.
pub const TABLE_FALLBACK_PATH: &'static str = "/";

/// The column a panel is sorted by when the settings name none.
pub const TABLE_FALLBACK_PREDICATE: &'static str = "name";

/// The direction a panel is sorted in when the settings name none.
pub const TABLE_FALLBACK_DIRECTION: &'static str = "asc";

/// The settings of one panel.
#[derive(Debug, PartialEq)]
pub struct TableConfiguration {
    path: String,
    sort_predicate: String,
    sort_direction: String,
}

/// The mathematical value of a [`TableConfiguration`].
pub struct TableConfigurationView {
    pub path: Seq<char>,
    pub sort_predicate: Seq<char>,
    pub sort_direction: Seq<char>,
}

impl View for TableConfiguration {
    type V = TableConfigurationView;

    closed spec fn view(&self) -> TableConfigurationView {
        TableConfigurationView {
            path: self.path@,
            sort_predicate: self.sort_predicate@,
            sort_direction: self.sort_direction@,
        }
    }
}

/// The settings of a panel when nothing is stored.
pub open spec fn fallback_table_configuration() -> TableConfigurationView {
    TableConfigurationView {
        path: TABLE_FALLBACK_PATH@,
        sort_predicate: TABLE_FALLBACK_PREDICATE@,
        sort_direction: TABLE_FALLBACK_DIRECTION@,
    }
}

impl TableConfiguration {
    /// The settings of a panel from their three texts.
    pub fn new(path: String, sort_predicate: String, sort_direction: String) -> (r: Self)
        ensures
            r@ == (TableConfigurationView {
                path: path@,
                sort_predicate: sort_predicate@,
                sort_direction: sort_direction@,
            }),
    {
        TableConfiguration { path, sort_predicate, sort_direction }
    }

    /// The directory the panel showed last.
    pub fn path(&self) -> (r: &String)
        ensures
            r@ == self@.path,
    {
        &self.path
    }

    pub fn set_path(&mut self, path: String)
        ensures
            final(self)@ == (TableConfigurationView { path: path@, ..old(self)@ }),
    {
        self.path = path;
    }

    /// The keyword of the column the panel is sorted by.
    pub fn sort_predicate(&self) -> (r: &String)
        ensures
            r@ == self@.sort_predicate,
    {
        &self.sort_predicate
    }

    pub fn set_predicate(&mut self, predicate: String)
        ensures
            final(self)@ == (TableConfigurationView { sort_predicate: predicate@, ..old(self)@ }),
    {
        self.sort_predicate = predicate;
    }

    /// The keyword of the direction the panel is sorted in.
    pub fn sort_direction(&self) -> (r: &String)
        ensures
            r@ == self@.sort_direction,
    {
        &self.sort_direction
    }

    pub fn set_sort_direction(&mut self, direction: String)
        ensures
            final(self)@ == (TableConfigurationView { sort_direction: direction@, ..old(self)@ }),
    {
        self.sort_direction = direction;
    }

    /// A copy of the settings.
    pub fn duplicate(&self) -> (r: Self)
        ensures
            r@ == self@,
    {
        TableConfiguration {
            path: self.path.clone(),
            sort_predicate: self.sort_predicate.clone(),
            sort_direction: self.sort_direction.clone(),
        }
    }
}

impl Default for TableConfiguration {
    fn default() -> (r: Self)
        ensures
            r@ == fallback_table_configuration(),
    {
        TableConfiguration {
            path: fallback_path(),
            sort_predicate: fallback_predicate(),
            sort_direction: fallback_direction(),
        }
    }
}

/// The settings of the program.
#[derive(Debug, PartialEq)]
pub struct Configuration {
    left_table: TableConfiguration,
    right_table: TableConfiguration,
    show_hidden_files: bool,
}

/// The mathematical value of a [`Configuration`].
pub struct ConfigurationView {
    pub left_table: TableConfigurationView,
    pub right_table: TableConfigurationView,
    pub show_hidden_files: bool,
}

impl View for Configuration {
    type V = ConfigurationView;

    closed spec fn view(&self) -> ConfigurationView {
        ConfigurationView {
            left_table: self.left_table@,
            right_table: self.right_table@,
            show_hidden_files: self.show_hidden_files,
        }
    }
}

/// The settings when nothing is stored.
pub open spec fn fallback_configuration() -> ConfigurationView {
    ConfigurationView {
        left_table: fallback_table_configuration(),
        right_table: fallback_table_configuration(),
        show_hidden_files: false,
    }
}

impl Configuration {
    /// The settings from those of the two panels.
    pub fn new(
        left_table: TableConfiguration,
        right_table: TableConfiguration,
        show_hidden_files: bool,
    ) -> (r: Self)
        ensures
            r@ == (ConfigurationView {
                left_table: left_table@,
                right_table: right_table@,
                show_hidden_files,
            }),
    {
        Configuration { left_table, right_table, show_hidden_files }
    }

    /// The settings of the left panel.
    pub fn left_table_config(&self) -> (r: &TableConfiguration)
        ensures
            r@ == self@.left_table,
    {
        &self.left_table
    }

    pub fn left_table_config_mut(&mut self) -> (r: &mut TableConfiguration)
        ensures
            r@ == old(self)@.left_table,
            final(self)@ == (ConfigurationView { left_table: final(r)@, ..old(self)@ }),
    {
        &mut self.left_table
    }

    /// The settings of the right panel.
    pub fn right_table_config(&self) -> (r: &TableConfiguration)
        ensures
            r@ == self@.right_table,
    {
        &self.right_table
    }

    pub fn right_table_config_mut(&mut self) -> (r: &mut TableConfiguration)
        ensures
            r@ == old(self)@.right_table,
            final(self)@ == (ConfigurationView { right_table: final(r)@, ..old(self)@ }),
    {
        &mut self.right_table
    }

    /// Whether the panels show hidden files.
    pub fn show_hidden_files(&self) -> (r: bool)
        ensures
            r == self@.show_hidden_files,
    {
        self.show_hidden_files
    }

    pub fn set_show_hidden_files(&mut self, show: bool)
        ensures
            final(self)@ == (ConfigurationView { show_hidden_files: show, ..old(self)@ }),
    {
        self.show_hidden_files = show;
    }
}

impl Default for Configuration {
    fn default() -> (r: Self)
        ensures
            r@ == fallback_configuration(),
    {
        Configuration {
            left_table: TableConfiguration::default(),
            right_table: TableConfiguration::default(),
            show_hidden_files: false,
        }
    }
}

pub fn fallback_path() -> (r: String)
    ensures
        r@ == TABLE_FALLBACK_PATH@,
{
    TABLE_FALLBACK_PATH.to_owned()
}

pub fn fallback_predicate() -> (r: String)
    ensures
        r@ == TABLE_FALLBACK_PREDICATE@,
{
    TABLE_FALLBACK_PREDICATE.to_owned()
}

pub fn fallback_direction() -> (r: String)
    ensures
        r@ == TABLE_FALLBACK_DIRECTION@,
{
    TABLE_FALLBACK_DIRECTION.to_owned()
}

/// What has to be done, when the program starts, to have its settings.
#[derive(Copy, Clone, Debug, PartialEq, Eq, Structural)]
pub enum StartupStep {
    /// Read the settings file.
    Load,
    /// Write the fallback settings to the file and go on with them.
    SaveDefault,
    /// Make the directory of the settings file, then as `SaveDefault`.
    CreateDirThenSaveDefault,
}

/// What has to be done, when the program ends, to keep its settings.
#[derive(Copy, Clone, Debug, PartialEq, Eq, Structural)]
pub enum ShutdownStep {
    /// Write the settings file.
    Save,
    /// Make the directory of the settings file, then write the file.
    CreateDirThenSave,
}

/// The first step towards the settings, from what is on disk.
pub fn startup_step(dir_exists: bool, file_exists: bool) -> (r: StartupStep)
    ensures
        r == if !dir_exists {
            StartupStep::CreateDirThenSaveDefault
        } else if file_exists {
            StartupStep::Load
        } else {
            StartupStep::SaveDefault
        },
{
    if dir_exists {
        if file_exists {
            StartupStep::Load
        } else {
            StartupStep::SaveDefault
        }
    } else {
        StartupStep::CreateDirThenSaveDefault
    }
}

/// The settings to run with: what was read, or the fallback settings when
/// nothing could be read.
pub fn get_config(loaded: Option<Configuration>) -> (r: Configuration)
    ensures
        r@ == match loaded {
            Some(config) => config@,
            None => fallback_configuration(),
        },
{
    match loaded {
        Some(config) => config,
        None => Configuration::default(),
    }
}

/// The first step towards keeping the settings, from what is on disk.
pub fn save_config(dir_exists: bool) -> (r: ShutdownStep)
    ensures
        r == if dir_exists {
            ShutdownStep::Save
        } else {
            ShutdownStep::CreateDirThenSave
        },
{
    if dir_exists {
        ShutdownStep::Save
    } else {
        ShutdownStep::CreateDirThenSave
    }
}

} // verus!
