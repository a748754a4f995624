//! A panel as the user sees it: the model, and whether it has the focus.

use vstd::prelude::*;
use crate::config::{Configuration, TableConfiguration, TableConfigurationView};
use crate::entries::{next_selection, previous_selection};
use crate::listing::{listing_of, DirEntryData, IoError};
use crate::order::is_stable_sort_of;
use crate::panel::{
    cd_target, has_entered, has_refreshed, TableViewModel, TableViewModelView,
};
use crate::path::{path_names, PanelPath};
use crate::sort::{
    direction_from_text, predicate_from_text, TableSortDirection, TableSortPredicate,
};

verus! {

/// The mathematical value of a [`TableView`].
pub struct TableViewView {
    pub model: TableViewModelView,
    pub is_active: bool,
}

/// A panel, and whether it has the focus.
#[derive(Debug)]
pub struct TableView {
    model: TableViewModel,
    is_active: bool,
}

impl View for TableView {
    type V = TableViewView;

    closed spec fn view(&self) -> TableViewView {
        TableViewView { model: self.model@, is_active: self.is_active }
    }
}

impl TableView {
    /// A panel for the directory and the sort that the settings name, given
    /// what was read of that directory. It does not have the focus.
    pub fn new(
        table_config: &TableConfiguration,
        config: &Configuration,
        read: Result<Vec<DirEntryData>, IoError>,
    ) -> (r: Self)
        ensures
            !r@.is_active,
            is_opened(r@.model, table_config@, config@.show_hidden_files, read),
    {
        let mut model = TableViewModel::new(table_config, config);
        model.refresh(read);
        TableView { model, is_active: false }
    }

    /// The model of the panel.
    pub fn model(&self) -> (r: &TableViewModel)
        ensures
            r@ == self@.model,
    {
        &self.model
    }

    /// Gives the panel the focus.
    pub fn activate(&mut self)
        ensures
            final(self)@ == (TableViewView { is_active: true, ..old(self)@ }),
    {
        self.is_active = true;
        if !self.has_selection() {
            self.select_first();
            assert(self@.model == old(self)@.model);
        }
    }

    /// Takes the focus from the panel.
    pub fn deactivate(&mut self)
        ensures
            final(self)@ == (TableViewView { is_active: false, ..old(self)@ }),
    {
        self.is_active = false;
    }

    /// Changes the directory as the cursor says, given what was read of the
    /// directory that the model's `cd_target` names. See
    /// [`TableViewModel::cd`].
    pub fn change_dir(&mut self, read: Result<Vec<DirEntryData>, IoError>)
        ensures
            final(self)@.is_active == old(self)@.is_active,
            has_changed_dir(old(self)@.model, final(self)@.model, read),
    {
        let _ = self.model.cd(read);
    }

    /// The path of the entry under the cursor.
    pub fn get_selected_file(&self) -> (r: Option<PanelPath>)
        ensures
            match self@.model.selected {
                Some(i) => r is Some && r->0@ == self@.model.cwd.push(
                    self@.model.files[i as int].name,
                ),
                None => r is None,
            },
    {
        match self.model.selected() {
            Some(i) => {
                let file = &self.model.files()[i];
                assert(file@ == self@.model.files[i as int]);
                Some(self.model.pwd().join(file.name.as_str()))
            },
            None => None,
        }
    }

    pub fn has_selection(&self) -> (r: bool)
        ensures
            r == self@.model.selected is Some,
            r == (self@.model.files.len() > 0),
    {
        self.model.selected().is_some()
    }

    pub fn is_active(&self) -> (r: bool)
        ensures
            r == self@.is_active,
    {
        self.is_active
    }

    /// The directory shown.
    pub fn pwd(&self) -> (r: &PanelPath)
        ensures
            r@ == self@.model.cwd,
    {
        self.model.pwd()
    }

    /// Puts the cursor on the first entry, if there is one.
    pub fn select_first(&mut self)
        ensures
            final(self)@.is_active == old(self)@.is_active,
            final(self)@.model == (TableViewModelView {
                selected: if old(self)@.model.files.len() > 0 {
                    Some(0usize)
                } else {
                    old(self)@.model.selected
                },
                ..old(self)@.model
            }),
    {
        self.model.select_first();
    }

    /// Puts the cursor on the last entry, if there is one.
    pub fn select_last(&mut self)
        ensures
            final(self)@.is_active == old(self)@.is_active,
            final(self)@.model == (TableViewModelView {
                selected: if old(self)@.model.files.len() > 0 {
                    Some((old(self)@.model.files.len() - 1) as usize)
                } else {
                    old(self)@.model.selected
                },
                ..old(self)@.model
            }),
    {
        self.model.select_last();
    }

    /// Moves the cursor one entry up, from the first entry to the last.
    pub fn select_previous(&mut self)
        ensures
            final(self)@.is_active == old(self)@.is_active,
            final(self)@.model == (TableViewModelView {
                selected: previous_selection(
                    old(self)@.model.selected,
                    old(self)@.model.files.len(),
                ),
                ..old(self)@.model
            }),
    {
        self.model.select_previous();
    }

    /// Moves the cursor one entry down, from the last entry to the first.
    pub fn select_next(&mut self)
        ensures
            final(self)@.is_active == old(self)@.is_active,
            final(self)@.model == (TableViewModelView {
                selected: next_selection(old(self)@.model.selected, old(self)@.model.files.len()),
                ..old(self)@.model
            }),
    {
        self.model.select_next();
    }

    /// Sorts the entries in place. See [`TableViewModel::sort`].
    pub fn sort(&mut self)
        ensures
            final(self)@.is_active == old(self)@.is_active,
            is_sorted_in_place(
                old(self)@.model,
                final(self)@.model,
                old(self)@.model.predicate,
                old(self)@.model.direction,
            ),
    {
        self.model.sort();
    }

    /// Sorts the entries by another column.
    pub fn sort_by(&mut self, predicate: TableSortPredicate)
        ensures
            final(self)@.is_active == old(self)@.is_active,
            is_sorted_in_place(
                old(self)@.model,
                final(self)@.model,
                predicate,
                old(self)@.model.direction,
            ),
    {
        self.model.set_sort_predicate(predicate);
        self.model.sort();
    }

    pub fn sort_direction(&self) -> (r: TableSortDirection)
        ensures
            r == self@.model.direction,
    {
        self.model.sort_direction()
    }

    pub fn sort_predicate(&self) -> (r: TableSortPredicate)
        ensures
            r == self@.model.predicate,
    {
        self.model.sort_predicate()
    }

    /// Takes the sort from the settings and shows the directory anew, given
    /// what was read of it.
    pub fn update_config(
        &mut self,
        new_config: &TableConfiguration,
        read: Result<Vec<DirEntryData>, IoError>,
    )
        ensures
            final(self)@.is_active == old(self)@.is_active,
            ({
                let configured = TableViewModelView {
                    predicate: predicate_from_text(new_config@.sort_predicate),
                    direction: direction_from_text(new_config@.sort_direction),
                    ..old(self)@.model
                };
                match read {
                    Ok(entries) => has_refreshed(
                        configured,
                        final(self)@.model,
                        listing_of(entries@, configured.show_hidden_files),
                    ),
                    Err(error) => final(self)@.model == (TableViewModelView {
                        last_error: Some(error.message@),
                        ..configured
                    }),
                }
            }),
    {
        self.model.set_sort_predicate(TableSortPredicate::from(new_config.sort_predicate()));
        self.model.set_sort_direction(TableSortDirection::from(new_config.sort_direction()));
        self.model.refresh(read)
    }

    /// Takes from the settings whether hidden files are shown, and shows the
    /// directory anew, given what was read of it.
    pub fn change_config(&mut self, config: &Configuration, read: Result<Vec<DirEntryData>, IoError>)
        ensures
            final(self)@.is_active == old(self)@.is_active,
            ({
                let configured = TableViewModelView {
                    show_hidden_files: config@.show_hidden_files,
                    ..old(self)@.model
                };
                match read {
                    Ok(entries) => has_refreshed(
                        configured,
                        final(self)@.model,
                        listing_of(entries@, configured.show_hidden_files),
                    ),
                    Err(error) => final(self)@.model == (TableViewModelView {
                        last_error: Some(error.message@),
                        ..configured
                    }),
                }
            }),
    {
        self.model.filter_options_mut().set_show_hidden_files(config.show_hidden_files());
        self.model.refresh(read)
    }

    /// Sorts the entries in another direction.
    pub fn set_direction(&mut self, direction: TableSortDirection)
        ensures
            final(self)@.is_active == old(self)@.is_active,
            is_sorted_in_place(
                old(self)@.model,
                final(self)@.model,
                old(self)@.model.predicate,
                direction,
            ),
    {
        self.model.set_sort_direction(direction);
        self.model.sort();
    }
}

/// The panel shows the directory and has the sort that the settings name,
/// given what was read of that directory. If it could not be read, the
/// panel is empty and remembers the failure.
pub open spec fn is_opened(
    panel: TableViewModelView,
    settings: TableConfigurationView,
    show_hidden_files: bool,
    read: Result<Vec<DirEntryData>, IoError>,
) -> bool {
    &&& panel.cwd == path_names(settings.path)
    &&& panel.predicate == predicate_from_text(settings.sort_predicate)
    &&& panel.direction == direction_from_text(settings.sort_direction)
    &&& panel.show_hidden_files == show_hidden_files
    &&& match read {
        Ok(entries) => has_refreshed(
            TableViewModelView { files: Seq::empty(), selected: None, ..panel },
            panel,
            listing_of(entries@, show_hidden_files),
        ),
        Err(error) => panel.files.len() == 0 && panel.selected is None && panel.last_error
            == Some(error.message@),
    }
}

/// The panel `after` is `before` after a change of directory as its cursor
/// says, given what was read of the directory that the cursor leads to.
/// Where the cursor leads nowhere, nothing changes. If the directory could
/// not be read, the panel shows what it showed and remembers the failure.
pub open spec fn has_changed_dir(
    before: TableViewModelView,
    after: TableViewModelView,
    read: Result<Vec<DirEntryData>, IoError>,
) -> bool {
    match cd_target(before) {
        Err(_) => after == before,
        Ok(target) => match read {
            Ok(entries) => has_entered(
                before,
                after,
                target,
                listing_of(entries@, before.show_hidden_files),
            ),
            Err(error) => after == (TableViewModelView {
                last_error: Some(error.message@),
                ..before
            }),
        },
    }
}

/// `after` is `before` with the given sort, and with its entries sorted by
/// it: all of them in the root, and all but the first in any other
/// directory.
pub open spec fn is_sorted_in_place(
    before: TableViewModelView,
    after: TableViewModelView,
    predicate: TableSortPredicate,
    direction: TableSortDirection,
) -> bool {
    &&& after == (TableViewModelView { files: after.files, predicate, direction, ..before })
    &&& after.files.len() == before.files.len()
    &&& before.cwd.len() == 0 ==> is_stable_sort_of(
        after.files,
        before.files,
        predicate,
        direction,
    )
    &&& before.cwd.len() > 0 && before.files.len() > 0 ==> after.files[0] == before.files[0]
        && is_stable_sort_of(after.files.skip(1), before.files.skip(1), predicate, direction)
}

/// The title of a column.
pub open spec fn column_title(column: TableSortPredicate) -> Seq<char> {
    match column {
        TableSortPredicate::Name => "Name"@,
        TableSortPredicate::Size => "Size"@,
        TableSortPredicate::LastModified => "Last modified"@,
    }
}

/// The mark of a direction: it points down for ascending and up for
/// descending.
pub open spec fn direction_mark(direction: TableSortDirection) -> Seq<char> {
    match direction {
        TableSortDirection::Ascending => "▼"@,
        TableSortDirection::Descending => "▲"@,
    }
}

/// The head of a column: its title, and after it the mark of the direction
/// if the panel is sorted by this column.
pub open spec fn header_text(
    column: TableSortPredicate,
    sorted_by: TableSortPredicate,
    sort_order: TableSortDirection,
) -> Seq<char> {
    if column == sorted_by {
        column_title(column) + direction_mark(sort_order)
    } else {
        column_title(column)
    }
}

/// The heads of the three columns of a panel that is sorted as given.
pub fn header_cells(sorted_by: TableSortPredicate, sort_order: TableSortDirection) -> (r: [&'static str; 3])
    ensures
        r[0]@ == header_text(TableSortPredicate::Name, sorted_by, sort_order),
        r[1]@ == header_text(TableSortPredicate::Size, sorted_by, sort_order),
        r[2]@ == header_text(TableSortPredicate::LastModified, sorted_by, sort_order),
{
    proof {
        reveal_strlit("Name");
        reveal_strlit("Size");
        reveal_strlit("Last modified");
        reveal_strlit("▼");
        reveal_strlit("▲");
        reveal_strlit("Name▼");
        reveal_strlit("Size▼");
        reveal_strlit("Last modified▼");
        reveal_strlit("Name▲");
        reveal_strlit("Size▲");
        reveal_strlit("Last modified▲");
        assert("Name▼"@ =~= "Name"@ + "▼"@);
        assert("Size▼"@ =~= "Size"@ + "▼"@);
        assert("Last modified▼"@ =~= "Last modified"@ + "▼"@);
        assert("Name▲"@ =~= "Name"@ + "▲"@);
        assert("Size▲"@ =~= "Size"@ + "▲"@);
        assert("Last modified▲"@ =~= "Last modified"@ + "▲"@);
    }
    match sorted_by {
        TableSortPredicate::Name => match sort_order {
            TableSortDirection::Ascending => ["Name▼", "Size", "Last modified"],
            TableSortDirection::Descending => ["Name▲", "Size", "Last modified"],
        },
        TableSortPredicate::Size => match sort_order {
            TableSortDirection::Ascending => ["Name", "Size▼", "Last modified"],
            TableSortDirection::Descending => ["Name", "Size▲", "Last modified"],
        },
        TableSortPredicate::LastModified => match sort_order {
            TableSortDirection::Ascending => ["Name", "Size", "Last modified▼"],
            TableSortDirection::Descending => ["Name", "Size", "Last modified▲"],
        },
    }
}

/// The width of the size column.
pub const SIZE_COLUMN_WIDTH: u16 = 8;

/// The width of the date column.
pub const DATE_COLUMN_WIDTH: u16 = 16;

/// The width left for the name column in a panel of the given width, once
/// the frame and the two other columns have theirs. A panel too narrow for
/// them leaves none.
pub fn name_column_width(panel_width: u16) -> (r: u16)
    ensures
        r == if panel_width >= 3 + SIZE_COLUMN_WIDTH + DATE_COLUMN_WIDTH {
            panel_width - 3 - SIZE_COLUMN_WIDTH - DATE_COLUMN_WIDTH
        } else {
            0
        },
{
    if panel_width >= 3 + SIZE_COLUMN_WIDTH + DATE_COLUMN_WIDTH {
        panel_width - 3 - (SIZE_COLUMN_WIDTH + DATE_COLUMN_WIDTH)
    } else {
        0
    }
}

} // verus!
