use twc::entries::EntryList;
use twc::listing::DirContent;
use twc::order::{is_entry_before, is_size_before, sort_from, sort_listing};
use twc::sort::{get_type_by, SortBy, TableSortDirection, TableSortPredicate, TableSorter};

fn entry(name: &str, is_dir: bool, size: Option<u64>) -> DirContent {
    DirContent {
        name: String::from(name),
        is_dir,
        size,
        date: String::new(),
        attrs: String::new(),
    }
}

fn names(files: &Vec<DirContent>) -> Vec<String> {
    files.iter().map(|f| f.name.clone()).collect()
}

fn three() -> Vec<DirContent> {
    vec![entry("c", false, Some(1)), entry("a", false, Some(3)), entry("b", false, Some(2))]
}

#[test]
fn an_empty_list_has_no_cursor() {
    let list = EntryList::empty();
    assert_eq!(list.len(), 0);
    assert_eq!(list.selected(), None);
    assert!(list.get(0).is_none());
    let list = EntryList::new(Vec::new(), Some(3));
    assert_eq!(list.selected(), None);
}

#[test]
fn a_new_list_puts_the_cursor_on_an_entry() {
    assert_eq!(EntryList::new(three(), None).selected(), Some(0));
    assert_eq!(EntryList::new(three(), Some(1)).selected(), Some(1));
    assert_eq!(EntryList::new(three(), Some(2)).selected(), Some(2));
    assert_eq!(EntryList::new(three(), Some(3)).selected(), Some(2));
    let list = EntryList::new(three(), None);
    assert_eq!(list.len(), 3);
    assert_eq!(names(list.files()), vec!["c", "a", "b"]);
    assert_eq!(list.get(1).unwrap().name, "a");
    assert!(list.get(3).is_none());
}

#[test]
fn the_cursor_of_a_list_moves_and_wraps() {
    let mut list = EntryList::new(three(), None);
    list.select_previous();
    assert_eq!(list.selected(), Some(2));
    list.select_next();
    assert_eq!(list.selected(), Some(0));
    list.select_next();
    assert_eq!(list.selected(), Some(1));
    list.select(5);
    assert_eq!(list.selected(), Some(1));
    list.select(0);
    assert_eq!(list.selected(), Some(0));
    let mut one = EntryList::new(vec![entry("x", true, None)], None);
    one.select_next();
    assert_eq!(one.selected(), Some(0));
    one.select_previous();
    assert_eq!(one.selected(), Some(0));
}

#[test]
fn an_entry_put_in_front_stands_first() {
    let mut list = EntryList::new(three(), Some(2));
    list.insert_front(entry("..", true, None));
    assert_eq!(names(list.files()), vec!["..", "c", "a", "b"]);
    assert_eq!(list.selected(), Some(2));
    let mut empty = EntryList::empty();
    empty.insert_front(entry("..", true, None));
    assert_eq!(empty.selected(), Some(0));
    assert_eq!(empty.len(), 1);
}

#[test]
fn a_list_is_sorted_from_a_place_on() {
    let mut list = EntryList::new(three(), Some(1));
    list.sort_from(1, TableSortPredicate::Size, TableSortDirection::Descending);
    assert_eq!(names(list.files()), vec!["c", "a", "b"]);
    list.sort_from(1, TableSortPredicate::Size, TableSortDirection::Ascending);
    assert_eq!(names(list.files()), vec!["c", "b", "a"]);
    list.sort_from(0, TableSortPredicate::Name, TableSortDirection::Ascending);
    assert_eq!(names(list.files()), vec!["a", "b", "c"]);
    list.sort_from(3, TableSortPredicate::Name, TableSortDirection::Descending);
    list.sort_from(4, TableSortPredicate::Name, TableSortDirection::Descending);
    assert_eq!(names(list.files()), vec!["a", "b", "c"]);
    assert_eq!(list.selected(), Some(1));
}

#[test]
fn a_vector_is_sorted_from_a_place_on() {
    let mut files = three();
    sort_from(&mut files, 2, TableSortPredicate::Name, TableSortDirection::Ascending);
    assert_eq!(names(&files), vec!["c", "a", "b"]);
    sort_from(&mut files, 1, TableSortPredicate::Name, TableSortDirection::Descending);
    assert_eq!(names(&files), vec!["c", "b", "a"]);
    sort_from(&mut files, 7, TableSortPredicate::Name, TableSortDirection::Ascending);
    assert_eq!(names(&files), vec!["c", "b", "a"]);
    sort_listing(&mut files, TableSortPredicate::Name, TableSortDirection::Ascending);
    assert_eq!(names(&files), vec!["a", "b", "c"]);
    let mut none: Vec<DirContent> = Vec::new();
    sort_listing(&mut none, TableSortPredicate::Size, TableSortDirection::Descending);
    assert!(none.is_empty());
}

#[test]
fn a_long_listing_is_sorted() {
    let mut files: Vec<DirContent> = (0..200u64)
        .map(|i| entry(&format!("f{:03}", (i * 37) % 200), i % 3 == 0, Some((i * 91) % 50)))
        .collect();
    sort_listing(&mut files, TableSortPredicate::Name, TableSortDirection::Ascending);
    for pair in files.windows(2) {
        assert!(pair[0].is_dir || !pair[1].is_dir);
        if pair[0].is_dir == pair[1].is_dir {
            assert!(pair[0].name < pair[1].name);
        }
    }
    sort_listing(&mut files, TableSortPredicate::Size, TableSortDirection::Descending);
    for pair in files.windows(2) {
        assert!(pair[0].is_dir || !pair[1].is_dir);
        if pair[0].is_dir == pair[1].is_dir {
            assert!(pair[0].size >= pair[1].size);
            if pair[0].size == pair[1].size {
                assert!(pair[0].name < pair[1].name);
            }
        }
    }
    assert_eq!(files.len(), 200);
}

#[test]
fn which_entry_stands_above_which() {
    let dir = entry("z", true, None);
    let file = entry("a", false, Some(1));
    let larger = entry("b", false, Some(2));
    for direction in [TableSortDirection::Ascending, TableSortDirection::Descending] {
        for predicate in [
            TableSortPredicate::Name,
            TableSortPredicate::Size,
            TableSortPredicate::LastModified,
        ] {
            assert!(is_entry_before(&dir, &file, predicate, direction));
            assert!(!is_entry_before(&file, &dir, predicate, direction));
            assert!(!is_entry_before(&file, &file, predicate, direction));
        }
    }
    let up = TableSortDirection::Ascending;
    let down = TableSortDirection::Descending;
    assert!(is_entry_before(&file, &larger, TableSortPredicate::Name, up));
    assert!(is_entry_before(&larger, &file, TableSortPredicate::Name, down));
    assert!(is_entry_before(&file, &larger, TableSortPredicate::Size, up));
    assert!(is_entry_before(&larger, &file, TableSortPredicate::Size, down));
    assert!(!is_entry_before(&file, &larger, TableSortPredicate::LastModified, up));
    assert!(!is_entry_before(&larger, &file, TableSortPredicate::LastModified, up));
    assert!(is_size_before(None, Some(0)));
    assert!(!is_size_before(Some(0), None));
    assert!(!is_size_before(None, None));
    assert!(is_size_before(Some(1), Some(2)));
    assert!(!is_size_before(Some(2), Some(2)));
}

#[test]
fn a_sorter_keeps_its_column_and_direction() {
    let mut sorter = TableSorter::new(TableSortDirection::Descending, TableSortPredicate::Size);
    assert_eq!(sorter.get_direction(), TableSortDirection::Descending);
    assert_eq!(sorter.get_predicate(), TableSortPredicate::Size);
    sorter.set_direction(TableSortDirection::Ascending);
    assert_eq!(sorter.get_direction(), TableSortDirection::Ascending);
    assert_eq!(sorter.get_predicate(), TableSortPredicate::Size);
    sorter.set_predicate(TableSortPredicate::LastModified);
    assert_eq!(sorter.get_direction(), TableSortDirection::Ascending);
    assert_eq!(sorter.get_predicate(), TableSortPredicate::LastModified);
}

#[test]
fn each_column_and_direction_has_its_way_to_sort() {
    let up = TableSortDirection::Ascending;
    let down = TableSortDirection::Descending;
    assert_eq!(get_type_by(up, TableSortPredicate::Name), SortBy::NameAsc);
    assert_eq!(get_type_by(down, TableSortPredicate::Name), SortBy::NameDesc);
    assert_eq!(get_type_by(up, TableSortPredicate::Size), SortBy::SizeAsc);
    assert_eq!(get_type_by(down, TableSortPredicate::Size), SortBy::SizeDesc);
    assert_eq!(get_type_by(up, TableSortPredicate::LastModified), SortBy::LastModifiedAsc);
    assert_eq!(get_type_by(down, TableSortPredicate::LastModified), SortBy::LastModifiedDesc);
    let mut files = three();
    SortBy::SizeDesc.sort(&mut files);
    assert_eq!(names(&files), vec!["a", "b", "c"]);
    SortBy::NameDesc.sort(&mut files);
    assert_eq!(names(&files), vec!["c", "b", "a"]);
}
