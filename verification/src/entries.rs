//! The entries a panel shows, with the cursor that marks one of them.

use vstd::prelude::*;
use crate::listing::{listing_view, DirContent, DirContentView};
use crate::order::{is_stable_sort_of, sort_from};
use crate::sort::{TableSortDirection, TableSortPredicate};

verus! {

/// Where the cursor stands after a step down a list of `len` entries: on the
/// next entry, or on the first one after the last. An empty list has no
/// cursor.
pub open spec fn next_selection(selected: Option<usize>, len: nat) -> Option<usize> {
    match selected {
        Some(i) => if len == 0 {
            None
        } else if i + 1 >= len {
            Some(0)
        } else {
            Some((i + 1) as usize)
        },
        None => None,
    }
}

/// Where the cursor stands after a step up a list of `len` entries: on the
/// entry before, or on the last one before the first. An empty list has no
/// cursor.
pub open spec fn previous_selection(selected: Option<usize>, len: nat) -> Option<usize> {
    match selected {
        Some(i) => if len == 0 {
            None
        } else if i == 0 {
            Some((len - 1) as usize)
        } else {
            Some((i - 1) as usize)
        },
        None => None,
    }
}

/// Where the cursor stands when the list under it is replaced by one of
/// `len` entries: where it stood, or on the last entry if that place is gone,
/// or on the first entry if there was no cursor. An empty list has no cursor.
pub open spec fn kept_selection(selected: Option<usize>, len: nat) -> Option<usize> {
    if len == 0 {
        None
    } else {
        match selected {
            Some(i) => if i < len {
                Some(i)
            } else {
                Some((len - 1) as usize)
            },
            None => Some(0),
        }
    }
}

/// The entries of one directory, in the order in which they are shown, and
/// the cursor. The cursor marks an entry of the list, and only an empty list
/// has none.
#[derive(Debug)]
pub struct EntryList {
    files: Vec<DirContent>,
    selected: Option<usize>,
}

impl EntryList {
    #[verifier::type_invariant]
    spec fn well_formed(self) -> bool {
        match self.selected {
            Some(i) => i < self.files.len(),
            None => self.files.len() == 0,
        }
    }

    /// The entries, in order.
    pub closed spec fn entries(self) -> Seq<DirContentView> {
        listing_view(self.files@)
    }

    /// The place of the cursor.
    pub closed spec fn selection(self) -> Option<usize> {
        self.selected
    }

    /// An empty list.
    pub fn empty() -> (r: EntryList)
        ensures
            r.entries() == Seq::<DirContentView>::empty(),
            r.selection() is None,
    {
        let r = EntryList { files: Vec::new(), selected: None };
        assert(r.entries() =~= Seq::<DirContentView>::empty());
        r
    }

    /// The list of the given entries, with the cursor as `kept_selection`
    /// says.
    pub fn new(files: Vec<DirContent>, selected: Option<usize>) -> (r: EntryList)
        ensures
            r.entries() == listing_view(files@),
            r.selection() == kept_selection(selected, files@.len()),
    {
        let len = files.len();
        let selected = if len == 0 {
            None
        } else {
            match selected {
                Some(i) => if i < len {
                    Some(i)
                } else {
                    Some(len - 1)
                },
                None => Some(0),
            }
        };
        EntryList { files, selected }
    }

    /// The entries.
    pub fn files(&self) -> (r: &Vec<DirContent>)
        ensures
            listing_view(r@) == self.entries(),
    {
        &self.files
    }

    /// How many entries the list has.
    pub fn len(&self) -> (r: usize)
        ensures
            r == self.entries().len(),
    {
        self.files.len()
    }

    /// The entry at the given place.
    pub fn get(&self, index: usize) -> (r: Option<&DirContent>)
        ensures
            index < self.entries().len() ==> r is Some && r->0@ == self.entries()[index as int],
            index >= self.entries().len() ==> r is None,
    {
        if index < self.files.len() {
            Some(&self.files[index])
        } else {
            None
        }
    }

    /// The place of the cursor. It is a place of the list, and only an empty
    /// list has none.
    pub fn selected(&self) -> (r: Option<usize>)
        ensures
            r == self.selection(),
            r is Some ==> r->0 < self.entries().len(),
            r is None ==> self.entries().len() == 0,
    {
        proof {
            use_type_invariant(self);
        }
        self.selected
    }

    /// Puts the cursor on the given place, if the list has it.
    pub fn select(&mut self, index: usize)
        ensures
            final(self).entries() == old(self).entries(),
            final(self).selection() == if index < old(self).entries().len() {
                Some(index)
            } else {
                old(self).selection()
            },
    {
        if index < self.files.len() {
            self.selected = Some(index);
        }
    }

    /// Moves the cursor one entry up, from the first entry to the last.
    pub fn select_previous(&mut self)
        ensures
            final(self).entries() == old(self).entries(),
            final(self).selection() == previous_selection(
                old(self).selection(),
                old(self).entries().len(),
            ),
    {
        proof {
            use_type_invariant(&*self);
        }
        match self.selected {
            Some(i) => {
                if i == 0 {
                    self.selected = Some(self.files.len() - 1);
                } else {
                    self.selected = Some(i - 1);
                }
            },
            None => {},
        }
    }

    /// Moves the cursor one entry down, from the last entry to the first.
    pub fn select_next(&mut self)
        ensures
            final(self).entries() == old(self).entries(),
            final(self).selection() == next_selection(
                old(self).selection(),
                old(self).entries().len(),
            ),
    {
        proof {
            use_type_invariant(&*self);
        }
        match self.selected {
            Some(i) => {
                if i >= self.files.len() - 1 {
                    self.selected = Some(0);
                } else {
                    self.selected = Some(i + 1);
                }
            },
            None => {},
        }
    }

    /// Puts an entry ahead of all others. The cursor keeps its place, and an
    /// empty list gets it on the new entry.
    pub fn insert_front(&mut self, entry: DirContent)
        ensures
            final(self).entries() == seq![entry@] + old(self).entries(),
            final(self).selection() == kept_selection(
                old(self).selection(),
                old(self).entries().len() + 1,
            ),
    {
        let ghost ahead = self.entries();
        let (mut files, selected) = self.take();
        files.insert(0, entry);
        *self = EntryList::new(files, selected);
        assert(self.entries() =~= seq![entry@] + ahead);
    }

    /// Takes the entries and the cursor out and leaves the list empty.
    fn take(&mut self) -> (r: (Vec<DirContent>, Option<usize>))
        ensures
            listing_view(r.0@) == old(self).entries(),
            r.1 == old(self).selection(),
            r.1 is Some ==> r.1->0 < r.0.len(),
            r.1 is None ==> r.0.len() == 0,
            final(self).entries() == Seq::<DirContentView>::empty(),
            final(self).selection() is None,
    {
        let mut taken = EntryList::empty();
        core::mem::swap(self, &mut taken);
        proof {
            use_type_invariant(&taken);
        }
        let EntryList { files, selected } = taken;
        (files, selected)
    }

    /// Sorts the entries from place `start` on and leaves those ahead of it,
    /// and the cursor, where they are.
    pub fn sort_from(
        &mut self,
        start: usize,
        predicate: TableSortPredicate,
        direction: TableSortDirection,
    )
        ensures
            final(self).selection() == old(self).selection(),
            final(self).entries().len() == old(self).entries().len(),
            start > old(self).entries().len() ==> final(self).entries() == old(self).entries(),
            start <= old(self).entries().len() ==> final(self).entries().take(start as int) == old(
                self,
            ).entries().take(start as int),
            start <= old(self).entries().len() ==> is_stable_sort_of(
                final(self).entries().skip(start as int),
                old(self).entries().skip(start as int),
                predicate,
                direction,
            ),
    {
        let (mut files, selected) = self.take();
        sort_from(&mut files, start, predicate, direction);
        *self = EntryList { files, selected };
    }
}

} // verus!
