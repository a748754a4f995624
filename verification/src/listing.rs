//! One directory's listing: the entries as they are shown in a panel.

use vstd::prelude::*;
use crate::text::{has_leading_dot, same_text, starts_with_dot};

verus! {

/// The name of the entry that stands for the parent directory.
pub const PARENT_ENTRY_NAME: &'static str = "..";

/// What is shown in place of a name or a date that could not be read.
pub const UNREADABLE_PLACEHOLDER: &'static str = "N/A";

/// The date column of the parent entry.
pub const PARENT_ENTRY_DATE: &'static str = "Date";

/// One file or directory of a listing.
#[derive(Clone, Debug, PartialEq)]
pub struct DirContent {
    pub name: String,
    pub is_dir: bool,
    pub size: Option<u64>,
    pub date: String,
    pub attrs: String,
}

/// The mathematical value of a [`DirContent`].
pub struct DirContentView {
    pub name: Seq<char>,
    pub is_dir: bool,
    pub size: Option<u64>,
    pub date: Seq<char>,
    pub attrs: Seq<char>,
}

impl View for DirContent {
    type V = DirContentView;

    open spec fn view(&self) -> DirContentView {
        DirContentView {
            name: self.name@,
            is_dir: self.is_dir,
            size: self.size,
            date: self.date@,
            attrs: self.attrs@,
        }
    }
}

/// The values of the entries of a listing, in order.
pub open spec fn listing_view(entries: Seq<DirContent>) -> Seq<DirContentView> {
    Seq::new(entries.len(), |i: int| entries[i]@)
}

/// The entry that stands for the parent directory.
pub open spec fn parent_entry_view() -> DirContentView {
    DirContentView {
        name: PARENT_ENTRY_NAME@,
        is_dir: true,
        size: None,
        date: PARENT_ENTRY_DATE@,
        attrs: Seq::empty(),
    }
}

/// Whether an entry is the one that stands for the parent directory. It is
/// told by its name alone.
pub open spec fn is_parent_entry(entry: DirContentView) -> bool {
    entry.name == PARENT_ENTRY_NAME@
}

impl DirContent {
    /// A copy with the same value.
    pub fn duplicate(&self) -> (r: DirContent)
        ensures
            r@ == self@,
    {
        DirContent {
            name: self.name.clone(),
            is_dir: self.is_dir,
            size: self.size,
            date: self.date.clone(),
            attrs: self.attrs.clone(),
        }
    }

    /// The entry that stands for the parent directory.
    pub fn parent_entry() -> (r: DirContent)
        ensures
            r@ == parent_entry_view(),
            is_parent_entry(r@),
    {
        DirContent {
            name: PARENT_ENTRY_NAME.to_owned(),
            is_dir: true,
            size: None,
            date: PARENT_ENTRY_DATE.to_owned(),
            attrs: String::new(),
        }
    }

    /// Whether this is the entry that stands for the parent directory.
    pub fn is_parent_entry(&self) -> (r: bool)
        ensures
            r == is_parent_entry(self@),
    {
        same_text(self.name.as_str(), PARENT_ENTRY_NAME)
    }

    /// Whether the entry is hidden: its name starts with a dot.
    pub fn is_hidden(&self) -> (r: bool)
        ensures
            r == starts_with_dot(self@.name),
    {
        has_leading_dot(self.name.as_str())
    }
}

/// Which entries of a directory a listing shows.
#[derive(Debug, Default)]
pub struct FilterOptions {
    pub show_hidden_files: bool,
}

impl FilterOptions {
    /// Options that leave hidden files out.
    pub fn new() -> (r: Self)
        ensures
            !r.show_hidden_files,
    {
        FilterOptions { show_hidden_files: false }
    }

    pub fn show_hidden_files(&self) -> (r: bool)
        ensures
            r == self.show_hidden_files,
    {
        self.show_hidden_files
    }

    pub fn set_show_hidden_files(&mut self, show: bool)
        ensures
            final(self).show_hidden_files == show,
    {
        self.show_hidden_files = show;
    }
}

/// Why a directory could not be read, in the words of the system.
#[derive(Debug, PartialEq)]
pub struct IoError {
    pub message: String,
}

impl IoError {
    /// A copy of the error.
    pub fn duplicate(&self) -> (r: IoError)
        ensures
            r.message@ == self.message@,
    {
        IoError { message: self.message.clone() }
    }
}

/// What was read of one entry of a directory, before it is shown.
#[derive(Debug)]
pub struct DirEntryData {
    /// The name, where it is valid Unicode.
    pub name: Option<String>,
    /// The name with a replacement character for what is not Unicode.
    pub lossy_name: String,
    /// What the file system says of the entry, where it could be asked.
    pub metadata: Option<EntryMetadata>,
}

/// What the file system says of one entry.
#[derive(Debug)]
pub struct EntryMetadata {
    pub is_dir: bool,
    /// The length in bytes.
    pub len: u64,
    /// When the entry was last changed, as it is to be shown, where the time
    /// could be read.
    pub modified: Option<String>,
}

/// The entry that shows what was read.
///
/// A name that could not be read is shown as the placeholder. Only a file
/// has a size. A time that could not be read is shown as the placeholder.
/// Where the file system could not be asked at all, the entry is taken for a
/// directory without a date.
pub open spec fn entry_shown_for(data: DirEntryData) -> DirContentView {
    let name = match data.name {
        Some(name) => name@,
        None => UNREADABLE_PLACEHOLDER@,
    };
    match data.metadata {
        Some(metadata) => DirContentView {
            name,
            is_dir: metadata.is_dir,
            size: if metadata.is_dir {
                None
            } else {
                Some(metadata.len)
            },
            date: match metadata.modified {
                Some(date) => date@,
                None => UNREADABLE_PLACEHOLDER@,
            },
            attrs: Seq::empty(),
        },
        None => DirContentView {
            name,
            is_dir: true,
            size: None,
            date: Seq::empty(),
            attrs: Seq::empty(),
        },
    }
}

/// Whether an entry with this name is listed.
pub open spec fn is_listed(lossy_name: Seq<char>, show_hidden_files: bool) -> bool {
    show_hidden_files || !starts_with_dot(lossy_name)
}

/// The listing of what was read: the entries that are listed, in the order
/// in which they were read.
pub open spec fn listing_of(entries: Seq<DirEntryData>, show_hidden_files: bool) -> Seq<
    DirContentView,
>
    decreases entries.len(),
{
    if entries.len() == 0 {
        Seq::empty()
    } else if is_listed(entries.last().lossy_name@, show_hidden_files) {
        listing_of(entries.drop_last(), show_hidden_files).push(entry_shown_for(entries.last()))
    } else {
        listing_of(entries.drop_last(), show_hidden_files)
    }
}

impl From<DirEntryData> for DirContent {
    fn from(data: DirEntryData) -> (r: DirContent)
        ensures
            r@ == entry_shown_for(data),
    {
        entry_from(&data)
    }
}

impl vstd::std_specs::convert::FromSpecImpl<DirEntryData> for DirContent {
    open spec fn obeys_from_spec() -> bool {
        false
    }

    open spec fn from_spec(data: DirEntryData) -> DirContent {
        arbitrary()
    }
}

/// The entry that shows what was read.
pub fn entry_from(data: &DirEntryData) -> (r: DirContent)
    ensures
        r@ == entry_shown_for(*data),
{
    let name = match &data.name {
        Some(name) => name.clone(),
        None => UNREADABLE_PLACEHOLDER.to_owned(),
    };
    match &data.metadata {
        Some(metadata) => DirContent {
            name,
            is_dir: metadata.is_dir,
            size: if metadata.is_dir {
                None
            } else {
                Some(metadata.len)
            },
            date: match &metadata.modified {
                Some(date) => date.clone(),
                None => UNREADABLE_PLACEHOLDER.to_owned(),
            },
            attrs: String::new(),
        },
        None => DirContent {
            name,
            is_dir: true,
            size: None,
            date: String::new(),
            attrs: String::new(),
        },
    }
}

/// The listing of a directory from what was read of it. A failed read is
/// handed on as it is.
pub fn list_dir(read: Result<Vec<DirEntryData>, IoError>, filter_options: &FilterOptions) -> (r:
    Result<Vec<DirContent>, IoError>)
    ensures
        match read {
            Ok(entries) => r is Ok && listing_view(r->Ok_0@) == listing_of(
                entries@,
                filter_options.show_hidden_files,
            ),
            Err(error) => r == Err::<Vec<DirContent>, IoError>(error),
        },
{
    match read {
        Ok(entries) => {
            let mut listing: Vec<DirContent> = Vec::new();
            let mut i: usize = 0;
            assert(entries@.take(0) =~= Seq::<DirEntryData>::empty());
            while i < entries.len()
                invariant
                    i <= entries.len(),
                    listing_view(listing@) == listing_of(
                        entries@.take(i as int),
                        filter_options.show_hidden_files,
                    ),
                decreases entries.len() - i,
            {
                let ghost ahead = listing_view(listing@);
                assert(entries@.take(i + 1).drop_last() =~= entries@.take(i as int));
                if filter_options.show_hidden_files || !has_leading_dot(
                    entries[i].lossy_name.as_str(),
                ) {
                    listing.push(entry_from(&entries[i]));
                    assert(listing_view(listing@) =~= ahead.push(entry_shown_for(entries[i as int])));
                }
                i += 1;
            }
            assert(entries@.take(entries.len() as int) =~= entries@);
            Ok(listing)
        },
        Err(error) => Err(error),
    }
}

} // verus!
