//! One panel: the directory it shows, the entries of that directory, the
//! cursor, and the way the entries are sorted.
//!
//! The panel never reads a directory itself. Whoever drives it asks
//! [`TableViewModel::cd_target`] where a change of directory leads, reads
//! that directory, and hands what was read to [`TableViewModel::cd`].

use vstd::prelude::*;
use crate::config::{Configuration, TableConfiguration};
use crate::entries::{kept_selection, next_selection, previous_selection, EntryList};
use crate::listing::{
    is_parent_entry, list_dir, listing_of, listing_view, parent_entry_view, DirContent,
    DirContentView, DirEntryData, FilterOptions, IoError,
};
use crate::order::{
    directories_first, is_stable_arrangement, is_stable_sort_of,
    lemma_ordered_listing_has_directories_first, lemma_sort_keeps_every_entry, sort_listing,
};
use crate::path::{path_names, PanelPath};
use crate::sort::{
    direction_from_text, predicate_from_text, TableSortDirection, TableSortPredicate, TableSorter,
};
use crate::text::same_text;

verus! {

/// Why the directory was not changed.
#[derive(Copy, Clone, Debug, PartialEq, Eq, Structural)]
pub enum CdError {
    /// The cursor marks nothing.
    NoSelection,
    /// The cursor marks the parent entry, and the panel shows the root.
    AtRoot,
    /// The cursor marks a file.
    NotADirectory,
}

/// Where a change of directory leads.
#[derive(Debug)]
pub struct CdTarget {
    /// The directory to show.
    pub path: PanelPath,
    /// On the way up, the name of the directory that is left.
    pub left: Option<String>,
}

/// The mathematical value of a [`CdTarget`].
pub struct CdTargetView {
    pub path: Seq<Seq<char>>,
    pub left: Option<Seq<char>>,
}

/// The text of a name, if there is one.
pub open spec fn text_of(name: Option<String>) -> Option<Seq<char>> {
    match name {
        Some(name) => Some(name@),
        None => None,
    }
}

impl View for CdTarget {
    type V = CdTargetView;

    open spec fn view(&self) -> CdTargetView {
        CdTargetView { path: self.path@, left: text_of(self.left) }
    }
}

/// The mathematical value of a [`TableViewModel`].
pub struct TableViewModelView {
    /// The names that lead from the root to the directory shown.
    pub cwd: Seq<Seq<char>>,
    /// The entries, in the order in which they are shown.
    pub files: Seq<DirContentView>,
    /// The place of the cursor.
    pub selected: Option<usize>,
    pub predicate: TableSortPredicate,
    pub direction: TableSortDirection,
    pub show_hidden_files: bool,
    /// The words of the last failure to read a directory.
    pub last_error: Option<Seq<char>>,
}

/// The entry is a directory with the given name.
pub open spec fn is_directory_named(entry: DirContentView, name: Seq<char>) -> bool {
    entry.is_dir && entry.name == name
}

/// Some entry is a directory with the given name.
pub open spec fn has_directory_named(files: Seq<DirContentView>, name: Seq<char>) -> bool {
    exists|i: int| 0 <= i < files.len() && is_directory_named(#[trigger] files[i], name)
}

/// `files` is what a panel shows of `listing`: the listing sorted, and
/// ahead of it the parent entry unless the directory is the root.
pub open spec fn shows(
    files: Seq<DirContentView>,
    listing: Seq<DirContentView>,
    at_root: bool,
    predicate: TableSortPredicate,
    direction: TableSortDirection,
) -> bool {
    if at_root {
        is_stable_sort_of(files, listing, predicate, direction)
    } else {
        &&& files.len() > 0
        &&& files[0] == parent_entry_view()
        &&& is_stable_sort_of(files.skip(1), listing, predicate, direction)
    }
}

/// `selected` is where the cursor goes in a directory that was just
/// entered: on the first directory with the name that was left, and on the
/// first entry if no name was left or no directory has it.
pub open spec fn is_reselection(
    files: Seq<DirContentView>,
    left: Option<Seq<char>>,
    selected: Option<usize>,
) -> bool {
    if files.len() == 0 {
        selected is None
    } else {
        &&& selected is Some
        &&& selected->0 < files.len()
        &&& match left {
            Some(name) => if has_directory_named(files, name) {
                &&& is_directory_named(files[selected->0 as int], name)
                &&& forall|j: int|
                    0 <= j < selected->0 ==> !is_directory_named(#[trigger] files[j], name)
            } else {
                selected->0 == 0
            },
            None => selected->0 == 0,
        }
    }
}

/// Where a change of directory leads from the given state, or why there is
/// none.
///
/// Without a cursor there is none. The parent entry, which stands first,
/// leads to the parent of the directory shown, and nowhere from the root.
/// Any other directory leads into itself, and a file leads nowhere.
pub open spec fn cd_target(model: TableViewModelView) -> Result<CdTargetView, CdError> {
    match model.selected {
        None => Err(CdError::NoSelection),
        Some(i) => {
            let entry = model.files[i as int];
            if i == 0 && is_parent_entry(entry) {
                if model.cwd.len() == 0 {
                    Err(CdError::AtRoot)
                } else {
                    Ok(CdTargetView { path: model.cwd.drop_last(), left: Some(model.cwd.last()) })
                }
            } else if entry.is_dir {
                Ok(CdTargetView { path: model.cwd.push(entry.name), left: None })
            } else {
                Err(CdError::NotADirectory)
            }
        },
    }
}

/// The panel `after` shows the directory `target`, of which `listing` was
/// read, and keeps the settings of `before`.
pub open spec fn has_entered(
    before: TableViewModelView,
    after: TableViewModelView,
    target: CdTargetView,
    listing: Seq<DirContentView>,
) -> bool {
    &&& after.cwd == target.path
    &&& shows(after.files, listing, target.path.len() == 0, before.predicate, before.direction)
    &&& is_reselection(after.files, target.left, after.selected)
    &&& after.predicate == before.predicate
    &&& after.direction == before.direction
    &&& after.show_hidden_files == before.show_hidden_files
    &&& after.last_error is None
}

/// The panel `after` shows the directory of `before` anew, from the
/// `listing` that was read of it.
pub open spec fn has_refreshed(
    before: TableViewModelView,
    after: TableViewModelView,
    listing: Seq<DirContentView>,
) -> bool {
    &&& after.cwd == before.cwd
    &&& shows(after.files, listing, before.cwd.len() == 0, before.predicate, before.direction)
    &&& after.selected == kept_selection(before.selected, after.files.len())
    &&& after.predicate == before.predicate
    &&& after.direction == before.direction
    &&& after.show_hidden_files == before.show_hidden_files
    &&& after.last_error is None
}

/// In what a panel shows, every directory precedes every file, the parent
/// entry included.
pub proof fn lemma_panel_shows_directories_first(
    files: Seq<DirContentView>,
    listing: Seq<DirContentView>,
    at_root: bool,
    predicate: TableSortPredicate,
    direction: TableSortDirection,
)
    requires
        shows(files, listing, at_root, predicate, direction),
    ensures
        directories_first(files),
{
    if at_root {
        let origin = choose|origin: Seq<int>|
            is_stable_arrangement(files, listing, origin, predicate, direction);
        lemma_ordered_listing_has_directories_first(files, predicate, direction);
    } else {
        let tail = files.skip(1);
        let origin = choose|origin: Seq<int>|
            is_stable_arrangement(tail, listing, origin, predicate, direction);
        lemma_ordered_listing_has_directories_first(tail, predicate, direction);
        assert forall|i: int, j: int|
            0 <= i < j < files.len() && (#[trigger] files[j]).is_dir implies (
        #[trigger] files[i]).is_dir by {
            if i > 0 {
                assert(tail[i - 1] == files[i] && tail[j - 1] == files[j]);
            }
        }
    }
}

/// From the root, the parent entry leads nowhere.
pub proof fn lemma_parent_entry_leads_nowhere_from_root(model: TableViewModelView)
    requires
        model.cwd.len() == 0,
        model.selected == Some(0usize),
        is_parent_entry(model.files[0]),
    ensures
        cd_target(model) == Err::<CdTargetView, CdError>(CdError::AtRoot),
{
}

/// On the way up, the cursor goes to the directory that was left, if the
/// listing of the parent still has it.
pub proof fn lemma_way_up_selects_directory_left(
    before: TableViewModelView,
    after: TableViewModelView,
    listing: Seq<DirContentView>,
    place: int,
)
    requires
        before.cwd.len() > 0,
        before.selected == Some(0usize),
        is_parent_entry(before.files[0]),
        has_entered(before, after, cd_target(before)->Ok_0, listing),
        0 <= place < listing.len(),
        is_directory_named(listing[place], before.cwd.last()),
    ensures
        after.cwd == before.cwd.drop_last(),
        after.selected is Some,
        after.selected->0 < after.files.len(),
        is_directory_named(after.files[after.selected->0 as int], before.cwd.last()),
{
    let name = before.cwd.last();
    if after.cwd.len() == 0 {
        lemma_sort_keeps_every_entry(
            after.files,
            listing,
            before.predicate,
            before.direction,
            place,
        );
    } else {
        let tail = after.files.skip(1);
        lemma_sort_keeps_every_entry(tail, listing, before.predicate, before.direction, place);
        let k = choose|k: int| 0 <= k < tail.len() && tail[k] == listing[place];
        assert(after.files[k + 1] == tail[k]);
    }
    assert(has_directory_named(after.files, name));
}

/// What a panel shows of a listing.
fn arrange(
    listing: Vec<DirContent>,
    at_root: bool,
    predicate: TableSortPredicate,
    direction: TableSortDirection,
) -> (files: Vec<DirContent>)
    ensures
        shows(listing_view(files@), listing_view(listing@), at_root, predicate, direction),
{
    let mut files = listing;
    sort_listing(&mut files, predicate, direction);
    if !at_root {
        let ghost sorted = listing_view(files@);
        files.insert(0, DirContent::parent_entry());
        assert(listing_view(files@).skip(1) =~= sorted);
    }
    files
}

/// Where the cursor goes in a directory that was just entered.
fn reselect(files: &Vec<DirContent>, left: &Option<String>) -> (selected: Option<usize>)
    ensures
        is_reselection(listing_view(files@), text_of(*left), selected),
{
    if files.len() == 0 {
        return None;
    }
    match left {
        Some(name) => {
            let mut i: usize = 0;
            while i < files.len()
                invariant
                    i <= files.len(),
                    files.len() > 0,
                    text_of(*left) == Some(name@),
                    forall|j: int|
                        0 <= j < i ==> !is_directory_named(
                            #[trigger] listing_view(files@)[j],
                            name@,
                        ),
                decreases files.len() - i,
            {
                if files[i].is_dir && same_text(files[i].name.as_str(), name.as_str()) {
                    assert(is_directory_named(listing_view(files@)[i as int], name@));
                    return Some(i);
                }
                i += 1;
            }
            Some(0)
        },
        None => Some(0),
    }
}

/// One panel.
#[derive(Debug)]
pub struct TableViewModel {
    cwd: PanelPath,
    list: EntryList,
    filter_options: FilterOptions,
    last_error: Option<IoError>,
    sorter: TableSorter,
}

impl View for TableViewModel {
    type V = TableViewModelView;

    closed spec fn view(&self) -> TableViewModelView {
        TableViewModelView {
            cwd: self.cwd@,
            files: self.list.entries(),
            selected: self.list.selection(),
            predicate: self.sorter.predicate(),
            direction: self.sorter.direction(),
            show_hidden_files: self.filter_options.show_hidden_files,
            last_error: match self.last_error {
                Some(error) => Some(error.message@),
                None => None,
            },
        }
    }
}

impl TableViewModel {
    /// A panel for the directory and the sort that the settings name. It
    /// shows nothing yet.
    pub fn new(table_config: &TableConfiguration, config: &Configuration) -> (r: Self)
        ensures
            r@ == (TableViewModelView {
                cwd: path_names(table_config@.path),
                files: Seq::empty(),
                selected: None,
                predicate: predicate_from_text(table_config@.sort_predicate),
                direction: direction_from_text(table_config@.sort_direction),
                show_hidden_files: config@.show_hidden_files,
                last_error: None,
            }),
    {
        TableViewModel {
            cwd: PanelPath::parse(table_config.path().as_str()),
            list: EntryList::empty(),
            filter_options: FilterOptions { show_hidden_files: config.show_hidden_files() },
            last_error: None,
            sorter: TableSorter::new(
                TableSortDirection::from(table_config.sort_direction()),
                TableSortPredicate::from(table_config.sort_predicate()),
            ),
        }
    }

    /// Where a change of directory leads, or why there is none. The panel
    /// stays as it is.
    pub fn cd_target(&self) -> (r: Result<CdTarget, CdError>)
        ensures
            match cd_target(self@) {
                Ok(target) => r is Ok && r->Ok_0@ == target,
                Err(error) => r == Err::<CdTarget, CdError>(error),
            },
    {
        match self.list.selected() {
            None => Err(CdError::NoSelection),
            Some(i) => {
                let entry = &self.list.files()[i];
                assert(entry@ == self@.files[i as int]);
                if i == 0 && entry.is_parent_entry() {
                    match self.cwd.parent() {
                        None => Err(CdError::AtRoot),
                        Some(parent) => Ok(CdTarget { path: parent, left: self.cwd.file_name() }),
                    }
                } else if entry.is_dir {
                    Ok(CdTarget { path: self.cwd.join(entry.name.as_str()), left: None })
                } else {
                    Err(CdError::NotADirectory)
                }
            },
        }
    }

    /// Shows the directory `target`, of which `read` was read. A failed read
    /// is remembered and handed back, and the panel shows what it showed.
    pub fn enter(&mut self, target: CdTarget, read: Result<Vec<DirEntryData>, IoError>) -> (r:
        Result<(), IoError>)
        ensures
            match read {
                Ok(entries) => r is Ok && has_entered(
                    old(self)@,
                    final(self)@,
                    target@,
                    listing_of(entries@, old(self)@.show_hidden_files),
                ),
                Err(error) => r == Err::<(), IoError>(error) && final(self)@ == (
                TableViewModelView { last_error: Some(error.message@), ..old(self)@ }),
            },
    {
        match list_dir(read, &self.filter_options) {
            Ok(listing) => {
                let files = arrange(
                    listing,
                    target.path.is_root(),
                    self.sorter.get_predicate(),
                    self.sorter.get_direction(),
                );
                let selected = reselect(&files, &target.left);
                self.cwd = target.path;
                self.list = EntryList::new(files, selected);
                self.last_error = None;
                Ok(())
            },
            Err(error) => {
                self.last_error = Some(error.duplicate());
                Err(error)
            },
        }
    }

    /// Changes the directory as the cursor says, given what was read of the
    /// directory that [`Self::cd_target`] names.
    ///
    /// Where the cursor leads nowhere, the panel stays as it is and the
    /// reason is handed back. Else the panel shows the new directory: its
    /// listing sorted, the parent entry ahead unless it is the root, and the
    /// cursor on the directory that was left, or on the first entry. If the
    /// new directory could not be read, the panel shows what it showed and
    /// remembers the failure.
    pub fn cd(&mut self, read: Result<Vec<DirEntryData>, IoError>) -> (r: Result<(), CdError>)
        ensures
            match cd_target(old(self)@) {
                Err(error) => r == Err::<(), CdError>(error) && final(self)@ == old(self)@,
                Ok(target) => r is Ok && match read {
                    Ok(entries) => has_entered(
                        old(self)@,
                        final(self)@,
                        target,
                        listing_of(entries@, old(self)@.show_hidden_files),
                    ),
                    Err(error) => final(self)@ == (TableViewModelView {
                        last_error: Some(error.message@),
                        ..old(self)@
                    }),
                },
            },
    {
        match self.cd_target() {
            Ok(target) => {
                let _ = self.enter(target, read);
                Ok(())
            },
            Err(error) => Err(error),
        }
    }

    /// The entries, in the order in which they are shown.
    pub fn files(&self) -> (r: &Vec<DirContent>)
        ensures
            listing_view(r@) == self@.files,
    {
        self.list.files()
    }

    pub fn filter_options(&self) -> (r: &FilterOptions)
        ensures
            r.show_hidden_files == self@.show_hidden_files,
    {
        &self.filter_options
    }

    pub fn filter_options_mut(&mut self) -> (r: &mut FilterOptions)
        ensures
            r.show_hidden_files == old(self)@.show_hidden_files,
            final(self)@ == (TableViewModelView {
                show_hidden_files: final(r).show_hidden_files,
                ..old(self)@
            }),
    {
        &mut self.filter_options
    }

    /// Replaces the entries by the listing of what was read, unsorted and
    /// without the parent entry. A failed read is handed back, and the panel
    /// stays as it is.
    pub fn list(&mut self, read: Result<Vec<DirEntryData>, IoError>) -> (r: Result<(), IoError>)
        ensures
            match read {
                Ok(entries) => r is Ok && final(self)@ == (TableViewModelView {
                    files: listing_of(entries@, old(self)@.show_hidden_files),
                    selected: kept_selection(
                        old(self)@.selected,
                        listing_of(entries@, old(self)@.show_hidden_files).len(),
                    ),
                    ..old(self)@
                }),
                Err(error) => r == Err::<(), IoError>(error) && final(self)@ == old(self)@,
            },
    {
        match list_dir(read, &self.filter_options) {
            Ok(files) => {
                self.list = EntryList::new(files, self.list.selected());
                Ok(())
            },
            Err(error) => Err(error),
        }
    }

    /// The entry at the given place.
    pub fn get_file(&self, index: usize) -> (r: Option<&DirContent>)
        ensures
            index < self@.files.len() ==> r is Some && r->0@ == self@.files[index as int],
            index >= self@.files.len() ==> r is None,
    {
        self.list.get(index)
    }

    /// The last failure to read a directory, if the directory shown now was
    /// not read after it.
    pub fn last_error(&self) -> (r: &Option<IoError>)
        ensures
            r is Some == self@.last_error is Some,
            r is Some ==> r->0.message@ == self@.last_error->0,
    {
        &self.last_error
    }

    /// The directory shown.
    pub fn pwd(&self) -> (r: &PanelPath)
        ensures
            r@ == self@.cwd,
    {
        &self.cwd
    }

    /// Puts the parent entry ahead of the entries, unless the directory
    /// shown is the root.
    pub fn push_parent_front(&mut self)
        ensures
            old(self)@.cwd.len() == 0 ==> final(self)@ == old(self)@,
            old(self)@.cwd.len() > 0 ==> final(self)@ == (TableViewModelView {
                files: seq![parent_entry_view()] + old(self)@.files,
                selected: kept_selection(old(self)@.selected, old(self)@.files.len() + 1),
                ..old(self)@
            }),
    {
        if !self.cwd.is_root() {
            self.list.insert_front(DirContent::parent_entry());
        }
    }

    /// Names another directory as the one shown. The entries stay as they
    /// are until the directory is read.
    pub fn set_cwd(&mut self, new_cwd: PanelPath)
        ensures
            final(self)@ == (TableViewModelView { cwd: new_cwd@, ..old(self)@ }),
    {
        self.cwd = new_cwd;
    }

    /// Puts the cursor on the given place, if there is an entry at it.
    pub fn select(&mut self, index: usize)
        ensures
            final(self)@ == (TableViewModelView {
                selected: if index < old(self)@.files.len() {
                    Some(index)
                } else {
                    old(self)@.selected
                },
                ..old(self)@
            }),
    {
        self.list.select(index);
    }

    /// The place of the cursor. It is the place of an entry, and only a
    /// panel without entries has none.
    pub fn selected(&self) -> (r: Option<usize>)
        ensures
            r == self@.selected,
            r is Some ==> r->0 < self@.files.len(),
            r is None ==> self@.files.len() == 0,
    {
        self.list.selected()
    }

    /// Moves the cursor one entry up, from the first entry to the last.
    pub fn select_previous(&mut self)
        ensures
            final(self)@ == (TableViewModelView {
                selected: previous_selection(old(self)@.selected, old(self)@.files.len()),
                ..old(self)@
            }),
    {
        self.list.select_previous();
    }

    /// Moves the cursor one entry down, from the last entry to the first.
    pub fn select_next(&mut self)
        ensures
            final(self)@ == (TableViewModelView {
                selected: next_selection(old(self)@.selected, old(self)@.files.len()),
                ..old(self)@
            }),
    {
        self.list.select_next();
    }

    /// Puts the cursor on the first entry, if there is one.
    pub fn select_first(&mut self)
        ensures
            final(self)@ == (TableViewModelView {
                selected: if old(self)@.files.len() > 0 {
                    Some(0usize)
                } else {
                    old(self)@.selected
                },
                ..old(self)@
            }),
    {
        self.list.select(0);
    }

    /// Puts the cursor on the last entry, if there is one.
    pub fn select_last(&mut self)
        ensures
            final(self)@ == (TableViewModelView {
                selected: if old(self)@.files.len() > 0 {
                    Some((old(self)@.files.len() - 1) as usize)
                } else {
                    old(self)@.selected
                },
                ..old(self)@
            }),
    {
        let len = self.list.len();
        if len > 0 {
            self.list.select(len - 1);
        }
    }

    /// Sorts the entries in place. In the root all of them are sorted; in
    /// any other directory the first entry, which is the parent entry, stays
    /// first and the rest is sorted. The cursor keeps its place.
    pub fn sort(&mut self)
        ensures
            final(self)@ == (TableViewModelView { files: final(self)@.files, ..old(self)@ }),
            final(self)@.files.len() == old(self)@.files.len(),
            old(self)@.cwd.len() == 0 ==> is_stable_sort_of(
                final(self)@.files,
                old(self)@.files,
                old(self)@.predicate,
                old(self)@.direction,
            ),
            old(self)@.cwd.len() > 0 && old(self)@.files.len() > 0 ==> final(self)@.files[0] == old(
                self,
            )@.files[0] && is_stable_sort_of(
                final(self)@.files.skip(1),
                old(self)@.files.skip(1),
                old(self)@.predicate,
                old(self)@.direction,
            ),
    {
        let ghost before = self@.files;
        let start: usize = if self.cwd.is_root() {
            0
        } else {
            1
        };
        self.list.sort_from(start, self.sorter.get_predicate(), self.sorter.get_direction());
        proof {
            let after = self@.files;
            if start == 0 {
                assert(after.skip(0) =~= after);
                assert(before.skip(0) =~= before);
            } else if before.len() > 0 {
                assert(after.take(1)[0] == before.take(1)[0]);
            }
        }
    }

    pub fn sort_direction(&self) -> (r: TableSortDirection)
        ensures
            r == self@.direction,
    {
        self.sorter.get_direction()
    }

    /// Sets the direction. The entries stay as they are until they are
    /// sorted.
    pub fn set_sort_direction(&mut self, direction: TableSortDirection)
        ensures
            final(self)@ == (TableViewModelView { direction, ..old(self)@ }),
    {
        self.sorter.set_direction(direction)
    }

    pub fn sort_predicate(&self) -> (r: TableSortPredicate)
        ensures
            r == self@.predicate,
    {
        self.sorter.get_predicate()
    }

    /// Sets the column. The entries stay as they are until they are sorted.
    pub fn set_sort_predicate(&mut self, predicate: TableSortPredicate)
        ensures
            final(self)@ == (TableViewModelView { predicate, ..old(self)@ }),
    {
        self.sorter.set_predicate(predicate)
    }

    /// Sets the column and the direction and sorts the entries by them, as
    /// [`Self::sort`] does.
    pub fn set_sort(&mut self, predicate: TableSortPredicate, direction: TableSortDirection)
        ensures
            final(self)@ == (TableViewModelView {
                files: final(self)@.files,
                predicate,
                direction,
                ..old(self)@
            }),
            final(self)@.files.len() == old(self)@.files.len(),
            old(self)@.cwd.len() == 0 ==> is_stable_sort_of(
                final(self)@.files,
                old(self)@.files,
                predicate,
                direction,
            ),
            old(self)@.cwd.len() > 0 && old(self)@.files.len() > 0 ==> final(self)@.files[0] == old(
                self,
            )@.files[0] && is_stable_sort_of(
                final(self)@.files.skip(1),
                old(self)@.files.skip(1),
                predicate,
                direction,
            ),
    {
        self.sorter.set_predicate(predicate);
        self.sorter.set_direction(direction);
        self.sort();
    }

    /// Shows the directory anew, given what was read of it: its listing
    /// sorted, and the parent entry ahead unless it is the root. The cursor
    /// keeps its place if the place is still there. A failed read is
    /// remembered, and the panel shows what it showed.
    pub fn refresh(&mut self, read: Result<Vec<DirEntryData>, IoError>)
        ensures
            match read {
                Ok(entries) => has_refreshed(
                    old(self)@,
                    final(self)@,
                    listing_of(entries@, old(self)@.show_hidden_files),
                ),
                Err(error) => final(self)@ == (TableViewModelView {
                    last_error: Some(error.message@),
                    ..old(self)@
                }),
            },
    {
        match list_dir(read, &self.filter_options) {
            Ok(listing) => {
                let files = arrange(
                    listing,
                    self.cwd.is_root(),
                    self.sorter.get_predicate(),
                    self.sorter.get_direction(),
                );
                self.list = EntryList::new(files, self.list.selected());
                self.last_error = None;
            },
            Err(error) => {
                self.last_error = Some(error);
            },
        }
    }
}

} // verus!
