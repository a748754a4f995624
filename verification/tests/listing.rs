use twc::listing::{
    entry_from, list_dir, DirContent, DirEntryData, EntryMetadata, FilterOptions, IoError,
};
use twc::text::{has_leading_dot, is_text_before, same_text, spells, to_ascii_lower};

fn file(name: &str, len: u64) -> DirEntryData {
    DirEntryData {
        name: Some(String::from(name)),
        lossy_name: String::from(name),
        metadata: Some(EntryMetadata {
            is_dir: false,
            len,
            modified: Some(String::from("2023.01.02 03:04")),
        }),
    }
}

fn dir(name: &str) -> DirEntryData {
    DirEntryData {
        name: Some(String::from(name)),
        lossy_name: String::from(name),
        metadata: Some(EntryMetadata {
            is_dir: true,
            len: 4096,
            modified: Some(String::from("2023.01.02 03:04")),
        }),
    }
}

#[test]
fn a_file_has_a_size_and_a_directory_has_none() {
    let shown = entry_from(&file("a.out", 100));
    assert_eq!(
        shown,
        DirContent {
            name: String::from("a.out"),
            is_dir: false,
            size: Some(100),
            date: String::from("2023.01.02 03:04"),
            attrs: String::new(),
        }
    );
    let shown = DirContent::from(dir("Alpha"));
    assert!(shown.is_dir);
    assert_eq!(shown.size, None);
    assert_eq!(shown.name, "Alpha");
}

#[test]
fn what_cannot_be_read_is_shown_as_a_placeholder() {
    let nameless = DirEntryData {
        name: None,
        lossy_name: String::from("caf\u{fffd}"),
        metadata: Some(EntryMetadata { is_dir: false, len: 3, modified: None }),
    };
    let shown = entry_from(&nameless);
    assert_eq!(shown.name, "N/A");
    assert_eq!(shown.date, "N/A");
    assert_eq!(shown.size, Some(3));

    let unknown = DirEntryData {
        name: Some(String::from("gone")),
        lossy_name: String::from("gone"),
        metadata: None,
    };
    let shown = entry_from(&unknown);
    assert_eq!(shown.name, "gone");
    assert!(shown.is_dir);
    assert_eq!(shown.size, None);
    assert_eq!(shown.date, "");
}

#[test]
fn hidden_entries_are_listed_only_on_demand() {
    let read = || Ok(vec![file(".profile", 1), dir("bin"), dir(".cache"), file("x", 2)]);
    let shown = list_dir(read(), &FilterOptions::new()).unwrap();
    let names: Vec<&str> = shown.iter().map(|e| e.name.as_str()).collect();
    assert_eq!(names, vec!["bin", "x"]);

    let mut all = FilterOptions::new();
    assert!(!all.show_hidden_files());
    all.set_show_hidden_files(true);
    assert!(all.show_hidden_files());
    let shown = list_dir(read(), &all).unwrap();
    let names: Vec<&str> = shown.iter().map(|e| e.name.as_str()).collect();
    assert_eq!(names, vec![".profile", "bin", ".cache", "x"]);
}

#[test]
fn an_entry_is_hidden_by_its_lossy_name() {
    let odd = DirEntryData {
        name: None,
        lossy_name: String::from(".\u{fffd}"),
        metadata: None,
    };
    assert!(list_dir(Ok(vec![odd]), &FilterOptions::new()).unwrap().is_empty());
}

#[test]
fn a_failed_read_is_handed_on() {
    let error = IoError { message: String::from("Permission denied (os error 13)") };
    let result = list_dir(Err(error.duplicate()), &FilterOptions::new());
    assert_eq!(result, Err(error));
}

#[test]
fn the_parent_entry() {
    let parent = DirContent::parent_entry();
    assert_eq!(parent.name, "..");
    assert!(parent.is_dir);
    assert_eq!(parent.size, None);
    assert_eq!(parent.date, "Date");
    assert!(parent.is_parent_entry());
    assert!(parent.is_hidden());
    assert!(!entry_from(&dir("...")).is_parent_entry());
    assert_eq!(parent.duplicate(), parent);
}

#[test]
fn text_is_compared_byte_by_byte() {
    assert!(is_text_before("", "a"));
    assert!(!is_text_before("a", ""));
    assert!(!is_text_before("a", "a"));
    assert!(is_text_before("a", "ab"));
    assert!(is_text_before("Z", "a"));
    assert!(is_text_before("ab", "b"));
    assert!(is_text_before("z", "é"));
    assert!(is_text_before("2022.11.23 11:03", "2022.11.24 09:00"));
    assert!(same_text("é", "é"));
    assert!(!same_text("e", "é"));
    assert!(!same_text("a", "ab"));
}

#[test]
fn keywords_are_spelled_in_any_case() {
    assert!(spells("DeSc", "desc"));
    assert!(spells("desc", "desc"));
    assert!(!spells("desc ", "desc"));
    assert!(!spells("dexc", "desc"));
    assert!(!spells("", "desc"));
    assert_eq!(to_ascii_lower(b'A'), b'a');
    assert_eq!(to_ascii_lower(b'Z'), b'z');
    assert_eq!(to_ascii_lower(b'a'), b'a');
    assert_eq!(to_ascii_lower(b'@'), b'@');
    assert_eq!(to_ascii_lower(b'['), b'[');
    assert!(has_leading_dot(".x"));
    assert!(!has_leading_dot("x."));
    assert!(!has_leading_dot(""));
}
