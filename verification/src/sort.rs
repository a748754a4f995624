//! Ordering a listing: by name, size or date, ascending or descending, with
//! directories always ahead of files.

use vstd::prelude::*;
use crate::listing::{listing_view, DirContent};
use crate::order::{directories_first, is_stable_sort_of, sort_listing};
use crate::text::{lemma_lower_case_words_spell_themselves_only, spells, text_spells};

verus! {

pub const PREDICATE_NAME: usize = 0;

pub const PREDICATE_SIZE: usize = 1;

pub const PREDICATE_LAST_MODIFIED: usize = 2;

pub const DIRECTION_ASC: usize = 0;

pub const DIRECTION_DESC: usize = 1;

/// The order of the rows of a panel. The default is ascending.
#[derive(Copy, Clone, Debug, PartialEq, Eq, Structural)]
pub enum TableSortDirection {
    /// Smallest value on top.
    Ascending,
    /// Largest value on top.
    Descending,
}

/// The column by which a panel is ordered. The default is the name.
#[derive(Copy, Clone, Debug, PartialEq, Eq, Structural)]
pub enum TableSortPredicate {
    Name,
    Size,
    LastModified,
}

/// The keyword under which a direction is stored.
pub open spec fn direction_keyword(direction: TableSortDirection) -> Seq<char> {
    match direction {
        TableSortDirection::Ascending => "asc"@,
        TableSortDirection::Descending => "desc"@,
    }
}

/// The direction that a stored keyword stands for. Upper and lower case are
/// not told apart, and anything that is not a keyword means ascending.
pub open spec fn direction_from_text(text: Seq<char>) -> TableSortDirection {
    if text_spells(text, "desc"@) {
        TableSortDirection::Descending
    } else {
        TableSortDirection::Ascending
    }
}

/// The direction with the given number; any other number means ascending.
pub open spec fn direction_from_index(index: usize) -> TableSortDirection {
    if index == DIRECTION_DESC {
        TableSortDirection::Descending
    } else {
        TableSortDirection::Ascending
    }
}

/// The keyword under which a predicate is stored.
pub open spec fn predicate_keyword(predicate: TableSortPredicate) -> Seq<char> {
    match predicate {
        TableSortPredicate::Name => "name"@,
        TableSortPredicate::Size => "size"@,
        TableSortPredicate::LastModified => "modified"@,
    }
}

/// The predicate that a stored keyword stands for. Upper and lower case are
/// not told apart, and anything that is not a keyword means the name.
pub open spec fn predicate_from_text(text: Seq<char>) -> TableSortPredicate {
    if text_spells(text, "size"@) {
        TableSortPredicate::Size
    } else if text_spells(text, "modified"@) {
        TableSortPredicate::LastModified
    } else {
        TableSortPredicate::Name
    }
}

/// The predicate with the given number; any other number means the name.
pub open spec fn predicate_from_index(index: usize) -> TableSortPredicate {
    if index == PREDICATE_SIZE {
        TableSortPredicate::Size
    } else if index == PREDICATE_LAST_MODIFIED {
        TableSortPredicate::LastModified
    } else {
        TableSortPredicate::Name
    }
}

impl Default for TableSortDirection {
    fn default() -> (r: Self)
        ensures
            r == TableSortDirection::Ascending,
    {
        TableSortDirection::Ascending
    }
}

impl From<&String> for TableSortDirection {
    fn from(value: &String) -> (r: Self) {
        if spells(value.as_str(), "desc") {
            TableSortDirection::Descending
        } else {
            TableSortDirection::Ascending
        }
    }
}

impl vstd::std_specs::convert::FromSpecImpl<&String> for TableSortDirection {
    open spec fn obeys_from_spec() -> bool {
        true
    }

    open spec fn from_spec(value: &String) -> Self {
        direction_from_text(value@)
    }
}

impl From<usize> for TableSortDirection {
    fn from(value: usize) -> (r: Self) {
        if value == DIRECTION_DESC {
            TableSortDirection::Descending
        } else {
            TableSortDirection::Ascending
        }
    }
}

impl vstd::std_specs::convert::FromSpecImpl<usize> for TableSortDirection {
    open spec fn obeys_from_spec() -> bool {
        true
    }

    open spec fn from_spec(value: usize) -> Self {
        direction_from_index(value)
    }
}

impl TableSortDirection {
    /// Turns the direction round.
    pub fn _reverse(&mut self)
        ensures
            *final(self) == old(self).reversed(),
    {
        match self {
            TableSortDirection::Ascending => *self = TableSortDirection::Descending,
            TableSortDirection::Descending => *self = TableSortDirection::Ascending,
        }
    }

    /// The other direction.
    pub open spec fn reversed(self) -> TableSortDirection {
        match self {
            TableSortDirection::Ascending => TableSortDirection::Descending,
            TableSortDirection::Descending => TableSortDirection::Ascending,
        }
    }

    /// The number of the direction.
    pub fn as_usize(&self) -> (r: usize)
        ensures
            r == match *self {
                TableSortDirection::Ascending => DIRECTION_ASC,
                TableSortDirection::Descending => DIRECTION_DESC,
            },
            direction_from_index(r) == *self,
    {
        match self {
            TableSortDirection::Ascending => DIRECTION_ASC,
            TableSortDirection::Descending => DIRECTION_DESC,
        }
    }

    /// The keyword under which the direction is stored.
    pub fn keyword(&self) -> (r: String)
        ensures
            r@ == direction_keyword(*self),
    {
        match self {
            TableSortDirection::Ascending => "asc".to_owned(),
            TableSortDirection::Descending => "desc".to_owned(),
        }
    }
}

impl Default for TableSortPredicate {
    fn default() -> (r: Self)
        ensures
            r == TableSortPredicate::Name,
    {
        TableSortPredicate::Name
    }
}

impl From<&String> for TableSortPredicate {
    fn from(value: &String) -> (r: Self) {
        if spells(value.as_str(), "size") {
            TableSortPredicate::Size
        } else if spells(value.as_str(), "modified") {
            TableSortPredicate::LastModified
        } else {
            TableSortPredicate::Name
        }
    }
}

impl vstd::std_specs::convert::FromSpecImpl<&String> for TableSortPredicate {
    open spec fn obeys_from_spec() -> bool {
        true
    }

    open spec fn from_spec(value: &String) -> Self {
        predicate_from_text(value@)
    }
}

impl From<usize> for TableSortPredicate {
    fn from(value: usize) -> (r: Self) {
        if value == PREDICATE_SIZE {
            TableSortPredicate::Size
        } else if value == PREDICATE_LAST_MODIFIED {
            TableSortPredicate::LastModified
        } else {
            TableSortPredicate::Name
        }
    }
}

impl vstd::std_specs::convert::FromSpecImpl<usize> for TableSortPredicate {
    open spec fn obeys_from_spec() -> bool {
        true
    }

    open spec fn from_spec(value: usize) -> Self {
        predicate_from_index(value)
    }
}

impl TableSortPredicate {
    /// The number of the predicate.
    pub fn as_usize(&self) -> (r: usize)
        ensures
            r == match *self {
                TableSortPredicate::Name => PREDICATE_NAME,
                TableSortPredicate::Size => PREDICATE_SIZE,
                TableSortPredicate::LastModified => PREDICATE_LAST_MODIFIED,
            },
            predicate_from_index(r) == *self,
    {
        match self {
            TableSortPredicate::Name => PREDICATE_NAME,
            TableSortPredicate::Size => PREDICATE_SIZE,
            TableSortPredicate::LastModified => PREDICATE_LAST_MODIFIED,
        }
    }

    /// The keyword under which the predicate is stored.
    pub fn keyword(&self) -> (r: String)
        ensures
            r@ == predicate_keyword(*self),
    {
        match self {
            TableSortPredicate::Name => "name".to_owned(),
            TableSortPredicate::Size => "size".to_owned(),
            TableSortPredicate::LastModified => "modified".to_owned(),
        }
    }
}

impl From<TableSortDirection> for String {
    fn from(value: TableSortDirection) -> (r: String)
        ensures
            r@ == direction_keyword(value),
    {
        value.keyword()
    }
}

impl vstd::std_specs::convert::FromSpecImpl<TableSortDirection> for String {
    open spec fn obeys_from_spec() -> bool {
        false
    }

    open spec fn from_spec(value: TableSortDirection) -> String {
        arbitrary()
    }
}

impl From<TableSortPredicate> for String {
    fn from(value: TableSortPredicate) -> (r: String)
        ensures
            r@ == predicate_keyword(value),
    {
        value.keyword()
    }
}

impl vstd::std_specs::convert::FromSpecImpl<TableSortPredicate> for String {
    open spec fn obeys_from_spec() -> bool {
        false
    }

    open spec fn from_spec(value: TableSortPredicate) -> String {
        arbitrary()
    }
}

/// A keyword, read back, gives the direction and the predicate that wrote
/// it.
pub proof fn lemma_keywords_read_back(predicate: TableSortPredicate, direction: TableSortDirection)
    ensures
        predicate_from_text(predicate_keyword(predicate)) == predicate,
        direction_from_text(direction_keyword(direction)) == direction,
{
    reveal_strlit("asc");
    reveal_strlit("desc");
    reveal_strlit("name");
    reveal_strlit("size");
    reveal_strlit("modified");
    lemma_lower_case_words_spell_themselves_only("asc"@, "desc"@);
    lemma_lower_case_words_spell_themselves_only("desc"@, "desc"@);
    lemma_lower_case_words_spell_themselves_only("name"@, "size"@);
    lemma_lower_case_words_spell_themselves_only("name"@, "modified"@);
    lemma_lower_case_words_spell_themselves_only("size"@, "size"@);
    lemma_lower_case_words_spell_themselves_only("modified"@, "size"@);
    lemma_lower_case_words_spell_themselves_only("modified"@, "modified"@);
    assert("asc"@ != "desc"@) by {
        assert("asc"@.len() != "desc"@.len());
    }
    assert("name"@ != "size"@) by {
        assert("name"@[0] != "size"@[0]);
    }
    assert("name"@ != "modified"@) by {
        assert("name"@.len() != "modified"@.len());
    }
    assert("modified"@ != "size"@) by {
        assert("modified"@.len() != "size"@.len());
    }
}

/// A text that spells none of the keywords reads as the name, ascending.
pub proof fn lemma_unknown_text_reads_as_default(text: Seq<char>)
    requires
        !text_spells(text, "asc"@),
        !text_spells(text, "desc"@),
        !text_spells(text, "name"@),
        !text_spells(text, "size"@),
        !text_spells(text, "modified"@),
    ensures
        predicate_from_text(text) == TableSortPredicate::Name,
        direction_from_text(text) == TableSortDirection::Ascending,
{
}

/// The sort of a panel: a column and a direction.
#[derive(Debug)]
pub struct TableSorter {
    direction: TableSortDirection,
    predicate: TableSortPredicate,
}

impl Default for TableSorter {
    fn default() -> (r: Self)
        ensures
            r.direction() == TableSortDirection::Ascending,
            r.predicate() == TableSortPredicate::Name,
    {
        TableSorter {
            direction: TableSortDirection::Ascending,
            predicate: TableSortPredicate::Name,
        }
    }
}

impl TableSorter {
    pub closed spec fn direction(&self) -> TableSortDirection {
        self.direction
    }

    pub closed spec fn predicate(&self) -> TableSortPredicate {
        self.predicate
    }

    pub fn new(direction: TableSortDirection, predicate: TableSortPredicate) -> (r: Self)
        ensures
            r.direction() == direction,
            r.predicate() == predicate,
    {
        TableSorter { direction, predicate }
    }

    pub fn get_direction(&self) -> (r: TableSortDirection)
        ensures
            r == self.direction(),
    {
        self.direction
    }

    pub fn get_predicate(&self) -> (r: TableSortPredicate)
        ensures
            r == self.predicate(),
    {
        self.predicate
    }

    pub fn set_direction(&mut self, direction: TableSortDirection)
        ensures
            final(self).direction() == direction,
            final(self).predicate() == old(self).predicate(),
    {
        self.direction = direction;
    }

    pub fn set_predicate(&mut self, predicate: TableSortPredicate)
        ensures
            final(self).predicate() == predicate,
            final(self).direction() == old(self).direction(),
    {
        self.predicate = predicate;
    }

    /// Sorts the listing by the column and in the direction of this sorter.
    pub fn sort(&self, files: &mut Vec<DirContent>)
        ensures
            is_stable_sort_of(
                listing_view(final(files)@),
                listing_view(old(files)@),
                self.predicate(),
                self.direction(),
            ),
            directories_first(listing_view(final(files)@)),
    {
        get_type_by(self.direction, self.predicate).sort(files)
    }
}

/// The six ways to sort a listing.
#[derive(Copy, Clone, Debug, PartialEq, Eq, Structural)]
pub enum SortBy {
    NameAsc,
    NameDesc,
    SizeAsc,
    SizeDesc,
    LastModifiedAsc,
    LastModifiedDesc,
}

impl SortBy {
    pub open spec fn predicate(self) -> TableSortPredicate {
        match self {
            SortBy::NameAsc | SortBy::NameDesc => TableSortPredicate::Name,
            SortBy::SizeAsc | SortBy::SizeDesc => TableSortPredicate::Size,
            SortBy::LastModifiedAsc | SortBy::LastModifiedDesc => TableSortPredicate::LastModified,
        }
    }

    pub open spec fn direction(self) -> TableSortDirection {
        match self {
            SortBy::NameAsc | SortBy::SizeAsc | SortBy::LastModifiedAsc => {
                TableSortDirection::Ascending
            },
            SortBy::NameDesc | SortBy::SizeDesc | SortBy::LastModifiedDesc => {
                TableSortDirection::Descending
            },
        }
    }

    /// Sorts the listing this way.
    pub fn sort(&self, files: &mut Vec<DirContent>)
        ensures
            is_stable_sort_of(
                listing_view(final(files)@),
                listing_view(old(files)@),
                self.predicate(),
                self.direction(),
            ),
            directories_first(listing_view(final(files)@)),
    {
        match self {
            SortBy::NameAsc => NameSorterAsc.sort(files),
            SortBy::NameDesc => NameSorterDesc.sort(files),
            SortBy::SizeAsc => SizeSorterAsc.sort(files),
            SortBy::SizeDesc => SizeSorterDesc.sort(files),
            SortBy::LastModifiedAsc => LastModifiedSorterAsc.sort(files),
            SortBy::LastModifiedDesc => LastModifiedSorterDesc.sort(files),
        }
    }
}

/// The way to sort by the given column in the given direction.
pub fn get_type_by(direction: TableSortDirection, predicate: TableSortPredicate) -> (r: SortBy)
    ensures
        r.direction() == direction,
        r.predicate() == predicate,
{
    match direction {
        TableSortDirection::Ascending => match predicate {
            TableSortPredicate::Name => SortBy::NameAsc,
            TableSortPredicate::Size => SortBy::SizeAsc,
            TableSortPredicate::LastModified => SortBy::LastModifiedAsc,
        },
        TableSortDirection::Descending => match predicate {
            TableSortPredicate::Name => SortBy::NameDesc,
            TableSortPredicate::Size => SortBy::SizeDesc,
            TableSortPredicate::LastModified => SortBy::LastModifiedDesc,
        },
    }
}

/// Sorts by name, ascending. Upper and lower case are told apart.
pub struct NameSorterAsc;

/// Sorts by name, descending. Upper and lower case are told apart.
pub struct NameSorterDesc;

/// Sorts by size, ascending.
pub struct SizeSorterAsc;

/// Sorts by size, descending.
pub struct SizeSorterDesc;

/// Sorts by the date of the last change, ascending.
pub struct LastModifiedSorterAsc;

/// Sorts by the date of the last change, descending.
pub struct LastModifiedSorterDesc;

impl NameSorterAsc {
    pub fn sort(&self, files: &mut Vec<DirContent>)
        ensures
            is_stable_sort_of(
                listing_view(final(files)@),
                listing_view(old(files)@),
                TableSortPredicate::Name,
                TableSortDirection::Ascending,
            ),
            directories_first(listing_view(final(files)@)),
    {
        sort_listing(files, TableSortPredicate::Name, TableSortDirection::Ascending)
    }
}

impl NameSorterDesc {
    pub fn sort(&self, files: &mut Vec<DirContent>)
        ensures
            is_stable_sort_of(
                listing_view(final(files)@),
                listing_view(old(files)@),
                TableSortPredicate::Name,
                TableSortDirection::Descending,
            ),
            directories_first(listing_view(final(files)@)),
    {
        sort_listing(files, TableSortPredicate::Name, TableSortDirection::Descending)
    }
}

impl SizeSorterAsc {
    pub fn sort(&self, files: &mut Vec<DirContent>)
        ensures
            is_stable_sort_of(
                listing_view(final(files)@),
                listing_view(old(files)@),
                TableSortPredicate::Size,
                TableSortDirection::Ascending,
            ),
            directories_first(listing_view(final(files)@)),
    {
        sort_listing(files, TableSortPredicate::Size, TableSortDirection::Ascending)
    }
}

impl SizeSorterDesc {
    pub fn sort(&self, files: &mut Vec<DirContent>)
        ensures
            is_stable_sort_of(
                listing_view(final(files)@),
                listing_view(old(files)@),
                TableSortPredicate::Size,
                TableSortDirection::Descending,
            ),
            directories_first(listing_view(final(files)@)),
    {
        sort_listing(files, TableSortPredicate::Size, TableSortDirection::Descending)
    }
}

impl LastModifiedSorterAsc {
    pub fn sort(&self, files: &mut Vec<DirContent>)
        ensures
            is_stable_sort_of(
                listing_view(final(files)@),
                listing_view(old(files)@),
                TableSortPredicate::LastModified,
                TableSortDirection::Ascending,
            ),
            directories_first(listing_view(final(files)@)),
    {
        sort_listing(files, TableSortPredicate::LastModified, TableSortDirection::Ascending)
    }
}

impl LastModifiedSorterDesc {
    pub fn sort(&self, files: &mut Vec<DirContent>)
        ensures
            is_stable_sort_of(
                listing_view(final(files)@),
                listing_view(old(files)@),
                TableSortPredicate::LastModified,
                TableSortDirection::Descending,
            ),
            directories_first(listing_view(final(files)@)),
    {
        sort_listing(files, TableSortPredicate::LastModified, TableSortDirection::Descending)
    }
}

} // verus!
