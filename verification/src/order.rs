//! The order of the entries of a listing, and the stable sort that
//! establishes it.

use vstd::prelude::*;
use crate::listing::{listing_view, DirContent, DirContentView};
use crate::sort::{TableSortDirection, TableSortPredicate};
use crate::text::{is_text_before, lemma_bytes_strict_total_order, text_before};
use vstd::utf8::encode_utf8;

verus! {

/// Strict order on sizes. An entry without a size comes before every entry
/// that has one.
pub open spec fn size_before(a: Option<u64>, b: Option<u64>) -> bool {
    match (a, b) {
        (None, Some(_)) => true,
        (Some(x), Some(y)) => x < y,
        _ => false,
    }
}

/// Whether `a` is strictly smaller than `b` in the given column.
pub open spec fn column_before(
    a: DirContentView,
    b: DirContentView,
    predicate: TableSortPredicate,
) -> bool {
    match predicate {
        TableSortPredicate::Name => text_before(a.name, b.name),
        TableSortPredicate::Size => size_before(a.size, b.size),
        TableSortPredicate::LastModified => text_before(a.date, b.date),
    }
}

/// Whether `a` has to stand above `b` in a panel ordered by `predicate` in
/// `direction`.
///
/// A directory stands above every file, whatever the column and direction.
/// Two files, or two directories, are compared in the column, the other way
/// round when descending. The one exception is the size of directories,
/// where the larger stands first in both directions.
pub open spec fn entry_before(
    a: DirContentView,
    b: DirContentView,
    predicate: TableSortPredicate,
    direction: TableSortDirection,
) -> bool {
    if a.is_dir != b.is_dir {
        a.is_dir
    } else if a.is_dir && predicate == TableSortPredicate::Size {
        size_before(b.size, a.size)
    } else {
        match direction {
            TableSortDirection::Ascending => column_before(a, b, predicate),
            TableSortDirection::Descending => column_before(b, a, predicate),
        }
    }
}

/// No entry of the listing has to stand above one that precedes it.
pub open spec fn is_ordered(
    listing: Seq<DirContentView>,
    predicate: TableSortPredicate,
    direction: TableSortDirection,
) -> bool {
    forall|i: int, j: int|
        0 <= i < j < listing.len() ==> !entry_before(
            #[trigger] listing[j],
            #[trigger] listing[i],
            predicate,
            direction,
        )
}

/// Every directory of the listing precedes every file.
pub open spec fn directories_first(listing: Seq<DirContentView>) -> bool {
    forall|i: int, j: int|
        0 <= i < j < listing.len() && (#[trigger] listing[j]).is_dir ==> (
        #[trigger] listing[i]).is_dir
}

/// `origin[k]` says where in `before` the entry at place `k` of `after` was.
/// It makes `after` the stable sort of `before`: the same entries, each once,
/// in order, and entries that tie in the order they had.
pub open spec fn is_stable_arrangement(
    after: Seq<DirContentView>,
    before: Seq<DirContentView>,
    origin: Seq<int>,
    predicate: TableSortPredicate,
    direction: TableSortDirection,
) -> bool {
    &&& after.len() == before.len()
    &&& origin.len() == before.len()
    &&& forall|k: int| 0 <= k < origin.len() ==> 0 <= #[trigger] origin[k] < before.len()
    &&& forall|i: int, j: int|
        0 <= i < j < origin.len() ==> #[trigger] origin[i] != #[trigger] origin[j]
    &&& forall|k: int| 0 <= k < after.len() ==> #[trigger] after[k] == before[origin[k]]
    &&& is_ordered(after, predicate, direction)
    &&& forall|i: int, j: int|
        0 <= i < j < origin.len() && !entry_before(after[i], after[j], predicate, direction)
            ==> #[trigger] origin[i] < #[trigger] origin[j]
}

/// `after` is the stable sort of `before`.
pub open spec fn is_stable_sort_of(
    after: Seq<DirContentView>,
    before: Seq<DirContentView>,
    predicate: TableSortPredicate,
    direction: TableSortDirection,
) -> bool {
    exists|origin: Seq<int>| is_stable_arrangement(after, before, origin, predicate, direction)
}

/// `entry_before` is a strict weak order: nothing stands above itself, the
/// relation is transitive, and so is "neither stands above the other".
pub proof fn lemma_entry_before_is_strict_weak_order(
    a: DirContentView,
    b: DirContentView,
    c: DirContentView,
    predicate: TableSortPredicate,
    direction: TableSortDirection,
)
    ensures
        !entry_before(a, a, predicate, direction),
        entry_before(a, b, predicate, direction) ==> !entry_before(b, a, predicate, direction),
        entry_before(a, b, predicate, direction) && entry_before(b, c, predicate, direction)
            ==> entry_before(a, c, predicate, direction),
        !entry_before(a, b, predicate, direction) && !entry_before(b, c, predicate, direction)
            ==> !entry_before(a, c, predicate, direction),
{
    lemma_bytes_strict_total_order(encode_utf8(a.name), encode_utf8(b.name), encode_utf8(c.name));
    lemma_bytes_strict_total_order(encode_utf8(c.name), encode_utf8(b.name), encode_utf8(a.name));
    lemma_bytes_strict_total_order(encode_utf8(a.date), encode_utf8(b.date), encode_utf8(c.date));
    lemma_bytes_strict_total_order(encode_utf8(c.date), encode_utf8(b.date), encode_utf8(a.date));
}

/// In an ordered listing every directory precedes every file.
pub proof fn lemma_ordered_listing_has_directories_first(
    listing: Seq<DirContentView>,
    predicate: TableSortPredicate,
    direction: TableSortDirection,
)
    requires
        is_ordered(listing, predicate, direction),
    ensures
        directories_first(listing),
{
    assert forall|i: int, j: int|
        0 <= i < j < listing.len() && (#[trigger] listing[j]).is_dir implies (
    #[trigger] listing[i]).is_dir by {
        assert(!entry_before(listing[j], listing[i], predicate, direction));
    }
}

/// A sequence of places that rises strictly and stays below `n` is the
/// identity.
proof fn lemma_rising_places_are_identity(origin: Seq<int>, n: int, k: int)
    requires
        origin.len() == n,
        forall|i: int| 0 <= i < n ==> 0 <= #[trigger] origin[i] < n,
        forall|i: int, j: int| 0 <= i < j < n ==> #[trigger] origin[i] < #[trigger] origin[j],
        0 <= k < n,
    ensures
        origin[k] == k,
{
    lemma_rising_places_lower(origin, n, k);
    lemma_rising_places_upper(origin, n, k);
}

proof fn lemma_rising_places_lower(origin: Seq<int>, n: int, k: int)
    requires
        origin.len() == n,
        forall|i: int| 0 <= i < n ==> 0 <= #[trigger] origin[i] < n,
        forall|i: int, j: int| 0 <= i < j < n ==> #[trigger] origin[i] < #[trigger] origin[j],
        0 <= k < n,
    ensures
        origin[k] >= k,
    decreases k,
{
    if k > 0 {
        lemma_rising_places_lower(origin, n, k - 1);
    }
}

proof fn lemma_rising_places_upper(origin: Seq<int>, n: int, k: int)
    requires
        origin.len() == n,
        forall|i: int| 0 <= i < n ==> 0 <= #[trigger] origin[i] < n,
        forall|i: int, j: int| 0 <= i < j < n ==> #[trigger] origin[i] < #[trigger] origin[j],
        0 <= k < n,
    ensures
        origin[k] <= k,
    decreases n - k,
{
    if k < n - 1 {
        lemma_rising_places_upper(origin, n, k + 1);
    }
}

/// Sorting a listing that is in order already leaves it as it is.
pub proof fn lemma_sort_keeps_ordered_listing(
    after: Seq<DirContentView>,
    before: Seq<DirContentView>,
    predicate: TableSortPredicate,
    direction: TableSortDirection,
)
    requires
        is_ordered(before, predicate, direction),
        is_stable_sort_of(after, before, predicate, direction),
    ensures
        after == before,
{
    let origin = choose|origin: Seq<int>|
        is_stable_arrangement(after, before, origin, predicate, direction);
    let n = before.len() as int;
    assert forall|i: int, j: int| 0 <= i < j < n implies #[trigger] origin[i] < #[trigger] origin[j] by {
        if origin[j] < origin[i] {
            assert(!entry_before(before[origin[i]], before[origin[j]], predicate, direction));
            assert(after[i] == before[origin[i]]);
            assert(after[j] == before[origin[j]]);
        }
    }
    assert forall|k: int| 0 <= k < n implies after[k] == before[k] by {
        lemma_rising_places_are_identity(origin, n, k);
    }
    assert(after =~= before);
}

/// Sorting twice by the same key gives what sorting once gives.
pub proof fn lemma_sort_is_idempotent(
    listing: Seq<DirContentView>,
    once: Seq<DirContentView>,
    twice: Seq<DirContentView>,
    predicate: TableSortPredicate,
    direction: TableSortDirection,
)
    requires
        is_stable_sort_of(once, listing, predicate, direction),
        is_stable_sort_of(twice, once, predicate, direction),
    ensures
        twice == once,
{
    lemma_sort_keeps_ordered_listing(twice, once, predicate, direction);
}

/// Places that are all different and all below their number take every
/// place below it.
proof fn lemma_distinct_places_take_every_place(origin: Seq<int>, place: int)
    requires
        forall|k: int| 0 <= k < origin.len() ==> 0 <= #[trigger] origin[k] < origin.len(),
        forall|i: int, j: int|
            0 <= i < j < origin.len() ==> #[trigger] origin[i] != #[trigger] origin[j],
        0 <= place < origin.len(),
    ensures
        exists|k: int| 0 <= k < origin.len() && origin[k] == place,
    decreases origin.len(),
{
    let n = origin.len() as int;
    if exists|m: int| 0 <= m < n && origin[m] == n - 1 {
        let m = choose|m: int| 0 <= m < n && origin[m] == n - 1;
        if place != n - 1 {
            let rest = Seq::new(
                (n - 1) as nat,
                |k: int|
                    if k < m {
                        origin[k]
                    } else {
                        origin[k + 1]
                    },
            );
            assert forall|k: int| 0 <= k < rest.len() implies 0 <= #[trigger] rest[k]
                < rest.len() by {
                if k < m {
                    assert(origin[k] != origin[m]);
                } else {
                    assert(origin[m] != origin[k + 1]);
                }
            }
            assert forall|i: int, j: int| 0 <= i < j < rest.len() implies #[trigger] rest[i]
                != #[trigger] rest[j] by {
                let a = if i < m {
                    i
                } else {
                    i + 1
                };
                let b = if j < m {
                    j
                } else {
                    j + 1
                };
                assert(origin[a] != origin[b]);
            }
            lemma_distinct_places_take_every_place(rest, place);
            let k = choose|k: int| 0 <= k < rest.len() && rest[k] == place;
            if k < m {
                assert(origin[k] == place);
            } else {
                assert(origin[k + 1] == place);
            }
        }
    } else {
        let rest = origin.drop_last();
        assert(origin[n - 1] != n - 1);
        assert forall|k: int| 0 <= k < rest.len() implies 0 <= #[trigger] rest[k]
            < rest.len() by {
            assert(origin[k] != n - 1);
        }
        assert forall|i: int, j: int| 0 <= i < j < rest.len() implies #[trigger] rest[i]
            != #[trigger] rest[j] by {
            assert(origin[i] != origin[j]);
        }
        lemma_distinct_places_take_every_place(rest, origin[n - 1]);
        let k = choose|k: int| 0 <= k < rest.len() && rest[k] == origin[n - 1];
        assert(origin[k] != origin[n - 1]);
    }
}

/// A sorted listing holds every entry of the listing it was sorted from.
pub proof fn lemma_sort_keeps_every_entry(
    after: Seq<DirContentView>,
    before: Seq<DirContentView>,
    predicate: TableSortPredicate,
    direction: TableSortDirection,
    place: int,
)
    requires
        is_stable_sort_of(after, before, predicate, direction),
        0 <= place < before.len(),
    ensures
        exists|k: int| 0 <= k < after.len() && after[k] == before[place],
{
    let origin = choose|origin: Seq<int>|
        is_stable_arrangement(after, before, origin, predicate, direction);
    lemma_distinct_places_take_every_place(origin, place);
    let k = choose|k: int| 0 <= k < origin.len() && origin[k] == place;
    assert(after[k] == before[origin[k]]);
}

/// A listing has one stable sort only: two listings that are both the
/// stable sort of a third are the same.
pub proof fn lemma_stable_sort_is_unique(
    first: Seq<DirContentView>,
    second: Seq<DirContentView>,
    before: Seq<DirContentView>,
    predicate: TableSortPredicate,
    direction: TableSortDirection,
)
    requires
        is_stable_sort_of(first, before, predicate, direction),
        is_stable_sort_of(second, before, predicate, direction),
    ensures
        first == second,
{
    let n = before.len() as int;
    let one = choose|origin: Seq<int>|
        is_stable_arrangement(first, before, origin, predicate, direction);
    let two = choose|origin: Seq<int>|
        is_stable_arrangement(second, before, origin, predicate, direction);
    // Where in `second` each entry of `first` stands.
    let place = Seq::new(n as nat, |i: int| choose|k: int| 0 <= k < n && two[k] == one[i]);
    assert forall|i: int| 0 <= i < n implies 0 <= #[trigger] place[i] < n && two[place[i]]
        == one[i] by {
        lemma_distinct_places_take_every_place(two, one[i]);
    }
    assert forall|i: int, j: int| 0 <= i < j < n implies #[trigger] place[i]
        < #[trigger] place[j] by {
        let a = place[i];
        let b = place[j];
        assert(two[a] == one[i] && two[b] == one[j]);
        assert(one[i] != one[j]);
        assert(first[i] == before[one[i]] && first[j] == before[one[j]]);
        assert(second[a] == before[two[a]] && second[b] == before[two[b]]);
        if b < a {
            assert(!entry_before(second[a], second[b], predicate, direction));
            assert(!entry_before(first[j], first[i], predicate, direction));
        }
    }
    assert forall|i: int| 0 <= i < n implies first[i] == second[i] by {
        lemma_rising_places_are_identity(place, n, i);
        assert(two[place[i]] == one[i]);
        assert(first[i] == before[one[i]]);
        assert(second[i] == before[two[i]]);
    }
    assert(first =~= second);
}

/// Whether the entry `a` has to stand above the entry `b`.
pub fn is_entry_before(
    a: &DirContent,
    b: &DirContent,
    predicate: TableSortPredicate,
    direction: TableSortDirection,
) -> (r: bool)
    ensures
        r == entry_before(a@, b@, predicate, direction),
{
    if a.is_dir != b.is_dir {
        return a.is_dir;
    }
    match predicate {
        TableSortPredicate::Name => match direction {
            TableSortDirection::Ascending => is_text_before(a.name.as_str(), b.name.as_str()),
            TableSortDirection::Descending => is_text_before(b.name.as_str(), a.name.as_str()),
        },
        TableSortPredicate::Size => {
            if a.is_dir {
                is_size_before(b.size, a.size)
            } else {
                match direction {
                    TableSortDirection::Ascending => is_size_before(a.size, b.size),
                    TableSortDirection::Descending => is_size_before(b.size, a.size),
                }
            }
        },
        TableSortPredicate::LastModified => match direction {
            TableSortDirection::Ascending => is_text_before(a.date.as_str(), b.date.as_str()),
            TableSortDirection::Descending => is_text_before(b.date.as_str(), a.date.as_str()),
        },
    }
}

/// Whether the size `a` is strictly smaller than the size `b`.
pub fn is_size_before(a: Option<u64>, b: Option<u64>) -> (r: bool)
    ensures
        r == size_before(a, b),
{
    match (a, b) {
        (None, Some(_)) => true,
        (Some(x), Some(y)) => x < y,
        _ => false,
    }
}

/// Whether place `i` of the listing has to come out ahead of place `j`: its
/// entry stands above the other, or the two tie and `i` is the earlier place.
pub open spec fn place_before(
    listing: Seq<DirContentView>,
    i: int,
    j: int,
    predicate: TableSortPredicate,
    direction: TableSortDirection,
) -> bool {
    entry_before(listing[i], listing[j], predicate, direction) || (!entry_before(
        listing[j],
        listing[i],
        predicate,
        direction,
    ) && i < j)
}

/// `run` holds the places `lo..hi` of the listing, each once, in the order
/// in which they have to come out.
pub open spec fn is_sorted_run(
    listing: Seq<DirContentView>,
    run: Seq<usize>,
    lo: int,
    hi: int,
    predicate: TableSortPredicate,
    direction: TableSortDirection,
) -> bool {
    &&& 0 <= lo <= hi <= listing.len()
    &&& run.len() == hi - lo
    &&& forall|k: int| 0 <= k < run.len() ==> lo <= #[trigger] run[k] < hi
    &&& forall|x: int, y: int|
        0 <= x < y < run.len() ==> place_before(
            listing,
            #[trigger] run[x] as int,
            #[trigger] run[y] as int,
            predicate,
            direction,
        )
}

proof fn lemma_place_before_is_transitive(
    listing: Seq<DirContentView>,
    a: int,
    b: int,
    c: int,
    predicate: TableSortPredicate,
    direction: TableSortDirection,
)
    requires
        place_before(listing, a, b, predicate, direction),
        place_before(listing, b, c, predicate, direction),
    ensures
        place_before(listing, a, c, predicate, direction),
{
    lemma_entry_before_is_strict_weak_order(listing[a], listing[b], listing[c], predicate, direction);
    lemma_entry_before_is_strict_weak_order(listing[a], listing[c], listing[b], predicate, direction);
    lemma_entry_before_is_strict_weak_order(listing[b], listing[a], listing[c], predicate, direction);
    lemma_entry_before_is_strict_weak_order(listing[c], listing[b], listing[a], predicate, direction);
}

/// Merges two sorted runs of neighbouring ranges into one.
fn merge_runs(
    files: &Vec<DirContent>,
    left: &Vec<usize>,
    right: &Vec<usize>,
    Ghost(lo): Ghost<int>,
    Ghost(mid): Ghost<int>,
    Ghost(hi): Ghost<int>,
    predicate: TableSortPredicate,
    direction: TableSortDirection,
) -> (run: Vec<usize>)
    requires
        is_sorted_run(listing_view(files@), left@, lo, mid, predicate, direction),
        is_sorted_run(listing_view(files@), right@, mid, hi, predicate, direction),
    ensures
        is_sorted_run(listing_view(files@), run@, lo, hi, predicate, direction),
{
    let ghost listing = listing_view(files@);
    let mut run: Vec<usize> = Vec::new();
    let mut i: usize = 0;
    let mut j: usize = 0;
    while i < left.len() || j < right.len()
        invariant
            listing == listing_view(files@),
            is_sorted_run(listing, left@, lo, mid, predicate, direction),
            is_sorted_run(listing, right@, mid, hi, predicate, direction),
            i <= left.len(),
            j <= right.len(),
            run.len() == i + j,
            forall|k: int| 0 <= k < run.len() ==> lo <= #[trigger] run[k] < hi,
            forall|x: int, y: int|
                0 <= x < y < run.len() ==> place_before(
                    listing,
                    #[trigger] run[x] as int,
                    #[trigger] run[y] as int,
                    predicate,
                    direction,
                ),
            forall|x: int, y: int|
                0 <= x < run.len() && i <= y < left.len() ==> place_before(
                    listing,
                    #[trigger] run[x] as int,
                    #[trigger] left[y] as int,
                    predicate,
                    direction,
                ),
            forall|x: int, y: int|
                0 <= x < run.len() && j <= y < right.len() ==> place_before(
                    listing,
                    #[trigger] run[x] as int,
                    #[trigger] right[y] as int,
                    predicate,
                    direction,
                ),
        decreases left.len() - i + right.len() - j,
    {
        let take_right = if i == left.len() {
            true
        } else if j == right.len() {
            false
        } else {
            is_entry_before(&files[right[j]], &files[left[i]], predicate, direction)
        };
        let ghost earlier = run@;
        if take_right {
            let place = right[j];
            proof {
                assert forall|y: int| i <= y < left.len() implies place_before(
                    listing,
                    place as int,
                    #[trigger] left[y] as int,
                    predicate,
                    direction,
                ) by {
                    assert(place_before(listing, place as int, left[i as int] as int, predicate, direction));
                    if y > i {
                        lemma_place_before_is_transitive(
                            listing,
                            place as int,
                            left[i as int] as int,
                            left[y] as int,
                            predicate,
                            direction,
                        );
                    }
                }
            }
            run.push(place);
            j += 1;
        } else {
            let place = left[i];
            proof {
                assert forall|y: int| j <= y < right.len() implies place_before(
                    listing,
                    place as int,
                    #[trigger] right[y] as int,
                    predicate,
                    direction,
                ) by {
                    assert(place_before(listing, place as int, right[j as int] as int, predicate, direction));
                    if y > j {
                        lemma_place_before_is_transitive(
                            listing,
                            place as int,
                            right[j as int] as int,
                            right[y] as int,
                            predicate,
                            direction,
                        );
                    }
                }
            }
            run.push(place);
            i += 1;
        }
        assert(forall|k: int| 0 <= k < earlier.len() ==> run[k] == earlier[k]);
    }
    run
}

/// The places `lo..hi` of the listing in the order in which they have to
/// come out.
fn sorted_run(
    files: &Vec<DirContent>,
    lo: usize,
    hi: usize,
    predicate: TableSortPredicate,
    direction: TableSortDirection,
) -> (run: Vec<usize>)
    requires
        lo <= hi <= files.len(),
    ensures
        is_sorted_run(listing_view(files@), run@, lo as int, hi as int, predicate, direction),
    decreases hi - lo,
{
    if hi - lo <= 1 {
        let mut run: Vec<usize> = Vec::new();
        if lo < hi {
            run.push(lo);
        }
        run
    } else {
        let mid = lo + (hi - lo) / 2;
        let left = sorted_run(files, lo, mid, predicate, direction);
        let right = sorted_run(files, mid, hi, predicate, direction);
        merge_runs(
            files,
            &left,
            &right,
            Ghost(lo as int),
            Ghost(mid as int),
            Ghost(hi as int),
            predicate,
            direction,
        )
    }
}

/// Sorts the entries from place `start` on and leaves those ahead of it
/// where they are. The sort is stable.
pub fn sort_from(
    files: &mut Vec<DirContent>,
    start: usize,
    predicate: TableSortPredicate,
    direction: TableSortDirection,
)
    ensures
        final(files).len() == old(files).len(),
        start > old(files).len() ==> listing_view(final(files)@) == listing_view(old(files)@),
        start <= old(files).len() ==> listing_view(final(files)@).take(start as int)
            == listing_view(old(files)@).take(start as int),
        start <= old(files).len() ==> is_stable_sort_of(
            listing_view(final(files)@).skip(start as int),
            listing_view(old(files)@).skip(start as int),
            predicate,
            direction,
        ),
{
    let n = files.len();
    if start > n {
        return ;
    }
    let run = sorted_run(files, start, n, predicate, direction);
    let ghost before = listing_view(files@);
    let mut sorted: Vec<DirContent> = Vec::new();
    let mut k: usize = 0;
    while k < start
        invariant
            k <= start <= n,
            n == files.len(),
            before == listing_view(files@),
            sorted.len() == k,
            forall|x: int| 0 <= x < k ==> (#[trigger] sorted[x])@ == before[x],
        decreases start - k,
    {
        sorted.push(files[k].duplicate());
        k += 1;
    }
    let mut k: usize = 0;
    while k < n - start
        invariant
            start <= n,
            k <= n - start,
            n == files.len(),
            before == listing_view(files@),
            is_sorted_run(before, run@, start as int, n as int, predicate, direction),
            sorted.len() == start + k,
            forall|x: int| 0 <= x < start ==> (#[trigger] sorted[x])@ == before[x],
            forall|x: int| 0 <= x < k ==> (#[trigger] sorted[start + x])@ == before[run[x] as int],
        decreases n - start - k,
    {
        sorted.push(files[run[k]].duplicate());
        k += 1;
    }
    proof {
        let after = listing_view(sorted@);
        let tail = after.skip(start as int);
        let old_tail = before.skip(start as int);
        let origin = Seq::new((n - start) as nat, |x: int| run[x] as int - start as int);
        assert(after.take(start as int) =~= before.take(start as int));
        assert forall|x: int| 0 <= x < n - start implies #[trigger] tail[x] == before[run[x] as int] by {
            assert(sorted[start + x]@ == before[run[x] as int]);
        }
        assert forall|i: int, j: int| 0 <= i < j < tail.len() implies !entry_before(
            #[trigger] tail[j],
            #[trigger] tail[i],
            predicate,
            direction,
        ) by {
            assert(place_before(before, run[i] as int, run[j] as int, predicate, direction));
            lemma_entry_before_is_strict_weak_order(
                before[run[i] as int],
                before[run[j] as int],
                before[run[i] as int],
                predicate,
                direction,
            );
        }
        assert forall|i: int, j: int|
            0 <= i < j < origin.len() && !entry_before(
                tail[i],
                tail[j],
                predicate,
                direction,
            ) implies #[trigger] origin[i] < #[trigger] origin[j] by {
            assert(place_before(before, run[i] as int, run[j] as int, predicate, direction));
        }
        assert forall|i: int, j: int| 0 <= i < j < origin.len() implies #[trigger] origin[i]
            != #[trigger] origin[j] by {
            assert(place_before(before, run[i] as int, run[j] as int, predicate, direction));
            lemma_entry_before_is_strict_weak_order(
                before[run[i] as int],
                before[run[j] as int],
                before[run[i] as int],
                predicate,
                direction,
            );
        }
        assert(is_stable_arrangement(tail, old_tail, origin, predicate, direction));
    }
    *files = sorted;
}

/// Sorts the whole listing. The sort is stable.
pub fn sort_listing(
    files: &mut Vec<DirContent>,
    predicate: TableSortPredicate,
    direction: TableSortDirection,
)
    ensures
        is_stable_sort_of(
            listing_view(final(files)@),
            listing_view(old(files)@),
            predicate,
            direction,
        ),
        directories_first(listing_view(final(files)@)),
{
    let ghost before = listing_view(files@);
    sort_from(files, 0, predicate, direction);
    proof {
        let after = listing_view(files@);
        assert(after.skip(0) =~= after);
        assert(before.skip(0) =~= before);
        lemma_ordered_listing_has_directories_first(after, predicate, direction);
    }
}

} // verus!
