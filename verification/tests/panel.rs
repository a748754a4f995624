use twc::config::{Configuration, TableConfiguration};
use twc::listing::{DirContent, DirEntryData, EntryMetadata, IoError};
use twc::panel::{CdError, TableViewModel};
use twc::sort::{TableSortDirection, TableSortPredicate};
use twc::table_view::TableView;

fn file(name: &str, len: u64) -> DirEntryData {
    DirEntryData {
        name: Some(String::from(name)),
        lossy_name: String::from(name),
        metadata: Some(EntryMetadata {
            is_dir: false,
            len,
            modified: Some(String::from("2023.01.02 03:04")),
        }),
    }
}

fn dir(name: &str) -> DirEntryData {
    DirEntryData {
        name: Some(String::from(name)),
        lossy_name: String::from(name),
        metadata: Some(EntryMetadata {
            is_dir: true,
            len: 4096,
            modified: Some(String::from("2023.01.02 03:04")),
        }),
    }
}

fn settings(path: &str, predicate: &str, direction: &str) -> TableConfiguration {
    TableConfiguration::new(String::from(path), String::from(predicate), String::from(direction))
}

fn model(path: &str, entries: Vec<DirEntryData>) -> TableViewModel {
    let mut model =
        TableViewModel::new(&settings(path, "name", "asc"), &Configuration::default());
    model.refresh(Ok(entries));
    model
}

fn names(files: &Vec<DirContent>) -> Vec<String> {
    files.iter().map(|f| f.name.clone()).collect()
}

fn denied() -> IoError {
    IoError { message: String::from("Permission denied (os error 13)") }
}

#[test]
fn a_new_model_shows_nothing() {
    let model =
        TableViewModel::new(&settings("/tmp/x", "SIZE", "Desc"), &Configuration::default());
    assert_eq!(model.pwd().display(), "/tmp/x");
    assert!(model.files().is_empty());
    assert_eq!(model.selected(), None);
    assert_eq!(model.sort_predicate(), TableSortPredicate::Size);
    assert_eq!(model.sort_direction(), TableSortDirection::Descending);
    assert!(!model.filter_options().show_hidden_files());
    assert!(model.last_error().is_none());
}

#[test]
fn listing_by_size_ascending() {
    let mut model =
        TableViewModel::new(&settings("/tmp/x", "size", "asc"), &Configuration::default());
    model.refresh(Ok(vec![file("a.out", 100), dir("Beta"), file("test.txt", 50), dir("Alpha")]));
    let shown = names(model.files());
    assert_eq!(shown[0], "..");
    assert!(shown[1..3].contains(&String::from("Alpha")));
    assert!(shown[1..3].contains(&String::from("Beta")));
    assert_eq!(shown[3..], vec!["test.txt", "a.out"]);
    assert_eq!(model.selected(), Some(0));
}

#[test]
fn the_root_has_no_parent_entry() {
    let model = model("/", vec![dir("usr"), dir("bin"), file("vmlinuz", 9)]);
    assert_eq!(names(model.files()), vec!["bin", "usr", "vmlinuz"]);
}

#[test]
fn going_up_selects_the_directory_that_was_left() {
    let mut model = model("/a/b", vec![file("f", 1)]);
    assert_eq!(names(model.files()), vec!["..", "f"]);
    assert_eq!(model.selected(), Some(0));

    let target = model.cd_target().unwrap();
    assert_eq!(target.path.display(), "/a");
    assert_eq!(target.left, Some(String::from("b")));

    assert_eq!(model.cd(Ok(vec![file("b.txt", 1), dir("c"), dir("b"), dir("a")])), Ok(()));
    assert_eq!(model.pwd().display(), "/a");
    assert_eq!(names(model.files()), vec!["..", "a", "b", "c", "b.txt"]);
    assert_eq!(model.selected(), Some(2));
    assert_eq!(model.get_file(2).unwrap().name, "b");
}

#[test]
fn going_up_selects_the_first_entry_if_the_directory_is_gone() {
    let mut model = model("/a/b", vec![]);
    assert_eq!(model.cd(Ok(vec![dir("c"), file("b", 3)])), Ok(()));
    assert_eq!(names(model.files()), vec!["..", "c", "b"]);
    assert_eq!(model.selected(), Some(0));
}

#[test]
fn going_up_to_the_root() {
    let mut model = model("/a", vec![]);
    assert_eq!(model.cd(Ok(vec![dir("b"), dir("a")])), Ok(()));
    assert!(model.pwd().is_root());
    assert_eq!(names(model.files()), vec!["a", "b"]);
    assert_eq!(model.selected(), Some(0));
    let mut model = self::model("/b", vec![]);
    assert_eq!(model.cd(Ok(vec![dir("b"), dir("a")])), Ok(()));
    assert_eq!(model.selected(), Some(1));
}

#[test]
fn the_parent_entry_leads_nowhere_from_the_root() {
    let mut config = Configuration::default();
    config.set_show_hidden_files(true);
    let mut model = TableViewModel::new(&settings("/", "name", "asc"), &config);
    model.refresh(Ok(vec![dir("..")]));
    assert_eq!(names(model.files()), vec![".."]);
    assert_eq!(model.selected(), Some(0));
    assert_eq!(model.cd_target().unwrap_err(), CdError::AtRoot);
    assert_eq!(model.cd(Ok(vec![dir("x")])), Err(CdError::AtRoot));
    assert!(model.pwd().is_root());
    assert_eq!(names(model.files()), vec![".."]);
    assert_eq!(model.selected(), Some(0));
}

#[test]
fn without_entries_there_is_nothing_to_enter() {
    let mut model = TableViewModel::new(&settings("/a", "name", "asc"), &Configuration::default());
    assert_eq!(model.cd(Ok(vec![])), Err(CdError::NoSelection));
    assert_eq!(model.pwd().display(), "/a");
    let mut empty_root = self::model("/", vec![]);
    assert_eq!(empty_root.cd(Ok(vec![])), Err(CdError::NoSelection));
}

#[test]
fn a_file_cannot_be_entered() {
    let mut model = model("/a", vec![file("f", 1), dir("d")]);
    model.select(2);
    assert_eq!(model.get_file(2).unwrap().name, "f");
    assert_eq!(model.cd(Ok(vec![])), Err(CdError::NotADirectory));
    assert_eq!(model.pwd().display(), "/a");
    assert_eq!(model.selected(), Some(2));
    assert_eq!(names(model.files()), vec!["..", "d", "f"]);
}

#[test]
fn entering_a_directory_selects_the_parent_entry() {
    let mut model = model("/a", vec![file("f", 1), dir("d")]);
    model.select(1);
    let target = model.cd_target().unwrap();
    assert_eq!(target.path.display(), "/a/d");
    assert_eq!(target.left, None);
    assert_eq!(model.cd(Ok(vec![dir("a"), file("g", 1)])), Ok(()));
    assert_eq!(model.pwd().display(), "/a/d");
    assert_eq!(names(model.files()), vec!["..", "a", "g"]);
    assert_eq!(model.selected(), Some(0));
}

#[test]
fn the_first_directory_of_the_root_can_be_entered() {
    let mut model = model("/", vec![dir("bin")]);
    assert_eq!(model.cd(Ok(vec![])), Ok(()));
    assert_eq!(model.pwd().display(), "/bin");
    assert_eq!(names(model.files()), vec![".."]);
}

#[test]
fn an_unreadable_directory_is_not_entered() {
    let mut model = model("/a", vec![dir("secret")]);
    model.select(1);
    assert_eq!(model.cd(Err(denied())), Ok(()));
    assert_eq!(model.pwd().display(), "/a");
    assert_eq!(names(model.files()), vec!["..", "secret"]);
    assert_eq!(model.selected(), Some(1));
    assert_eq!(*model.last_error(), Some(denied()));

    model.refresh(Ok(vec![dir("secret")]));
    assert!(model.last_error().is_none());
    model.refresh(Err(denied()));
    assert_eq!(*model.last_error(), Some(denied()));
    assert_eq!(names(model.files()), vec!["..", "secret"]);
}

#[test]
fn list_replaces_the_entries_and_hands_a_failure_back() {
    let mut model = model("/a", vec![dir("d"), dir("e"), dir("f")]);
    model.select_last();
    assert_eq!(model.selected(), Some(3));
    assert_eq!(model.list(Err(denied())), Err(denied()));
    assert_eq!(names(model.files()), vec!["..", "d", "e", "f"]);
    assert!(model.last_error().is_none());

    assert_eq!(model.list(Ok(vec![file("z", 1), dir(".h"), dir("y")])), Ok(()));
    assert_eq!(names(model.files()), vec!["z", "y"]);
    assert_eq!(model.selected(), Some(1));
    assert_eq!(model.list(Ok(vec![])), Ok(()));
    assert_eq!(model.selected(), None);
    assert_eq!(model.list(Ok(vec![dir("y")])), Ok(()));
    assert_eq!(model.selected(), Some(0));

    model.push_parent_front();
    assert_eq!(names(model.files()), vec!["..", "y"]);
    assert_eq!(model.selected(), Some(0));
}

#[test]
fn the_root_gets_no_parent_entry_pushed() {
    let mut model = model("/", vec![dir("d")]);
    model.push_parent_front();
    assert_eq!(names(model.files()), vec!["d"]);
    let mut empty = self::model("/a", vec![]);
    assert_eq!(names(empty.files()), vec![".."]);
    empty.set_cwd(twc::path::PanelPath::parse("/b/c"));
    assert_eq!(empty.pwd().display(), "/b/c");
    assert_eq!(names(empty.files()), vec![".."]);
}

#[test]
fn the_cursor_wraps_round() {
    let mut model = model("/", vec![dir("a"), dir("b"), dir("c")]);
    assert_eq!(model.selected(), Some(0));
    model.select_previous();
    assert_eq!(model.selected(), Some(2));
    model.select_next();
    assert_eq!(model.selected(), Some(0));
    model.select_next();
    assert_eq!(model.selected(), Some(1));
    model.select_last();
    assert_eq!(model.selected(), Some(2));
    model.select_first();
    assert_eq!(model.selected(), Some(0));
    model.select(7);
    assert_eq!(model.selected(), Some(0));
    model.select(2);
    assert_eq!(model.selected(), Some(2));
    assert!(model.get_file(3).is_none());
}

#[test]
fn the_cursor_of_an_empty_panel_does_not_move() {
    let mut model = model("/", vec![]);
    model.select_next();
    model.select_previous();
    model.select_first();
    model.select_last();
    model.select(0);
    assert_eq!(model.selected(), None);
}

#[test]
fn sorting_in_place_keeps_the_parent_entry_first() {
    let mut model = model("/a", vec![file("x", 5), dir("m"), file("y", 3), dir("n")]);
    assert_eq!(names(model.files()), vec!["..", "m", "n", "x", "y"]);
    model.select(3);
    model.set_sort(TableSortPredicate::Name, TableSortDirection::Descending);
    assert_eq!(names(model.files()), vec!["..", "n", "m", "y", "x"]);
    assert_eq!(model.selected(), Some(3));
    assert_eq!(model.sort_direction(), TableSortDirection::Descending);
    model.set_sort_predicate(TableSortPredicate::Size);
    model.set_sort_direction(TableSortDirection::Ascending);
    assert_eq!(names(model.files()), vec!["..", "n", "m", "y", "x"]);
    model.sort();
    assert_eq!(names(model.files()), vec!["..", "n", "m", "y", "x"]);
    model.set_sort(TableSortPredicate::Size, TableSortDirection::Descending);
    assert_eq!(names(model.files()), vec!["..", "n", "m", "x", "y"]);
}

#[test]
fn sorting_in_place_in_the_root_sorts_everything() {
    let mut model = model("/", vec![dir("b"), dir("a")]);
    model.set_sort(TableSortPredicate::Name, TableSortDirection::Descending);
    assert_eq!(names(model.files()), vec!["b", "a"]);
}

#[test]
fn hidden_files_follow_the_options() {
    let mut config = Configuration::default();
    config.set_show_hidden_files(true);
    let mut model = TableViewModel::new(&settings("/", "name", "asc"), &config);
    model.refresh(Ok(vec![dir(".git"), file("a", 1)]));
    assert_eq!(names(model.files()), vec![".git", "a"]);
    model.filter_options_mut().set_show_hidden_files(false);
    model.refresh(Ok(vec![dir(".git"), file("a", 1)]));
    assert_eq!(names(model.files()), vec!["a"]);
}

#[test]
fn a_view_starts_without_the_focus() {
    let mut view = TableView::new(
        &settings("/a", "name", "asc"),
        &Configuration::default(),
        Ok(vec![dir("d"), file("f", 1)]),
    );
    assert!(!view.is_active());
    assert!(view.has_selection());
    assert_eq!(view.pwd().display(), "/a");
    assert_eq!(names(view.model().files()), vec!["..", "d", "f"]);
    view.activate();
    assert!(view.is_active());
    assert_eq!(view.model().selected(), Some(0));
    view.deactivate();
    assert!(!view.is_active());
}

#[test]
fn a_view_of_an_unreadable_directory_is_empty() {
    let mut view =
        TableView::new(&settings("/a", "name", "asc"), &Configuration::default(), Err(denied()));
    assert!(!view.has_selection());
    assert!(view.model().files().is_empty());
    assert_eq!(*view.model().last_error(), Some(denied()));
    assert!(view.get_selected_file().is_none());
    view.activate();
    assert!(!view.has_selection());
}

#[test]
fn a_view_names_the_selected_file() {
    let mut view = TableView::new(
        &settings("/a", "name", "asc"),
        &Configuration::default(),
        Ok(vec![dir("d"), file("f", 1)]),
    );
    assert_eq!(view.get_selected_file().unwrap().display(), "/a/..");
    view.select_next();
    assert_eq!(view.get_selected_file().unwrap().display(), "/a/d");
    view.select_last();
    assert_eq!(view.get_selected_file().unwrap().display(), "/a/f");
    view.select_previous();
    view.select_first();
    assert_eq!(view.model().selected(), Some(0));
}

#[test]
fn a_view_changes_directory_and_sort() {
    let mut view = TableView::new(
        &settings("/a/b", "name", "asc"),
        &Configuration::default(),
        Ok(vec![file("f", 1)]),
    );
    view.change_dir(Ok(vec![dir("c"), dir("b"), file("z", 9), file("y", 10)]));
    assert_eq!(view.pwd().display(), "/a");
    assert_eq!(view.model().selected(), Some(1));
    view.sort_by(TableSortPredicate::Size);
    assert_eq!(view.sort_predicate(), TableSortPredicate::Size);
    assert_eq!(names(view.model().files()), vec!["..", "b", "c", "z", "y"]);
    view.set_direction(TableSortDirection::Descending);
    assert_eq!(view.sort_direction(), TableSortDirection::Descending);
    assert_eq!(names(view.model().files()), vec!["..", "b", "c", "y", "z"]);
    view.sort();
    assert_eq!(names(view.model().files()), vec!["..", "b", "c", "y", "z"]);
}

#[test]
fn a_view_takes_new_settings() {
    let mut view = TableView::new(
        &settings("/", "name", "asc"),
        &Configuration::default(),
        Ok(vec![dir(".x"), file("b", 1), file("a", 2)]),
    );
    assert_eq!(names(view.model().files()), vec!["a", "b"]);
    view.update_config(
        &settings("/ignored", "size", "asc"),
        Ok(vec![dir(".x"), file("b", 1), file("a", 2)]),
    );
    assert_eq!(view.pwd().display(), "/");
    assert_eq!(names(view.model().files()), vec!["b", "a"]);
    let mut config = Configuration::default();
    config.set_show_hidden_files(true);
    view.change_config(&config, Ok(vec![dir(".x"), file("b", 1), file("a", 2)]));
    assert_eq!(names(view.model().files()), vec![".x", "b", "a"]);
    view.change_config(&config, Err(denied()));
    assert_eq!(names(view.model().files()), vec![".x", "b", "a"]);
    assert_eq!(*view.model().last_error(), Some(denied()));
}
