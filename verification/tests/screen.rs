use twc::config::Configuration;
use twc::keys::{Buttons, Key};
use twc::listing::{DirContent, DirEntryData, EntryMetadata, IoError};
use twc::menu::{menu_command, MenuCommand, TopMenu, TopMenuMessage};
use twc::panel_options::{OptionComponents, PanelOpionsDialog};
use twc::path::PanelPath;
use twc::sort::{TableSortDirection, TableSortPredicate};
use twc::sorting_dialog::{option_label, Components, SortingDialog};
use twc::table_view::{header_cells, name_column_width};
use twc::transfer::{TransferDialogStatus, WorkerEvent};
use twc::ui::{bottom_menu_on, tick_rate, ActivePanel, ApplicationMessage};
use twc::user_interface::{Dialog, InputMode, MenuDialog, Request, UserInterface, Widgets};
use twc::viewer::TextFileViewer;

const ENTER: Key = Key::Char('\n');

fn file(name: &str, len: u64) -> DirEntryData {
    DirEntryData {
        name: Some(String::from(name)),
        lossy_name: String::from(name),
        metadata: Some(EntryMetadata { is_dir: false, len, modified: None }),
    }
}

fn dir(name: &str) -> DirEntryData {
    DirEntryData {
        name: Some(String::from(name)),
        lossy_name: String::from(name),
        metadata: Some(EntryMetadata { is_dir: true, len: 0, modified: None }),
    }
}

fn names(files: &Vec<DirContent>) -> Vec<String> {
    files.iter().map(|f| f.name.clone()).collect()
}

fn screen() -> UserInterface {
    let mut config = Configuration::default();
    config.left_table_config_mut().set_path(String::from("/l"));
    config.right_table_config_mut().set_path(String::from("/r"));
    UserInterface::new(
        config,
        Ok(vec![file("b", 2), dir("d"), file("a", 5)]),
        Ok(vec![dir(".h"), dir("e")]),
    )
}

fn quiet(request: Request) {
    assert!(matches!(request, Request::Nothing));
}

#[test]
fn the_screen_at_the_start() {
    let ui = screen();
    assert_eq!(ui.active_panel(), ActivePanel::Left);
    assert_eq!(ui.input_mode(), InputMode::Normal);
    assert_eq!(ui.focused_widget(), Widgets::TwinPanel);
    assert!(ui.dialog().is_none());
    assert!(ui.left_panel().is_active());
    assert!(!ui.right_panel().is_active());
    assert_eq!(names(ui.left_panel().model().files()), vec!["..", "d", "a", "b"]);
    assert_eq!(names(ui.right_panel().model().files()), vec!["..", "e"]);
    assert_eq!(ui.top_menu().items().len(), 3);
    assert_eq!(ui.config().left_table_config().path(), "/l");
}

#[test]
fn the_tabulator_switches_the_panels() {
    let mut ui = screen();
    quiet(ui.handle_key(Key::Char('\t')));
    assert_eq!(ui.active_panel(), ActivePanel::Right);
    assert!(!ui.left_panel().is_active());
    assert!(ui.right_panel().is_active());
    quiet(ui.handle_key(Key::Down));
    assert_eq!(ui.right_panel().model().selected(), Some(1));
    assert_eq!(ui.left_panel().model().selected(), Some(0));
    ui.switch_focused_panel();
    assert_eq!(ui.active_panel(), ActivePanel::Left);
    assert!(ui.left_panel().is_active());
}

#[test]
fn the_cursor_keys_move_the_cursor() {
    let mut ui = screen();
    quiet(ui.handle_key(Key::End));
    assert_eq!(ui.left_panel().model().selected(), Some(3));
    quiet(ui.handle_key(Key::Down));
    assert_eq!(ui.left_panel().model().selected(), Some(0));
    quiet(ui.handle_key(Key::Up));
    assert_eq!(ui.left_panel().model().selected(), Some(3));
    quiet(ui.handle_key(Key::Home));
    assert_eq!(ui.left_panel().model().selected(), Some(0));
    quiet(ui.handle_key(Key::Char('x')));
    quiet(ui.handle_key(Key::PageDown));
    assert_eq!(ui.left_panel().model().selected(), Some(0));
}

#[test]
fn enter_asks_for_the_directory_and_then_shows_it() {
    let mut ui = screen();
    ui.handle_key(Key::Down);
    match ui.handle_key(ENTER) {
        Request::ReadDir(path) => assert_eq!(path.display(), "/l/d"),
        other => panic!("{:?}", other),
    }
    assert_eq!(ui.left_panel().pwd().display(), "/l");
    ui.change_dir(Ok(vec![file("x", 1)]));
    assert_eq!(ui.left_panel().pwd().display(), "/l/d");
    assert_eq!(names(ui.left_panel().model().files()), vec!["..", "x"]);
    assert_eq!(ui.right_panel().pwd().display(), "/r");

    match ui.handle_key(ENTER) {
        Request::ReadDir(path) => assert_eq!(path.display(), "/l"),
        other => panic!("{:?}", other),
    }
    ui.change_dir(Ok(vec![file("b", 2), dir("d"), dir("c")]));
    assert_eq!(ui.left_panel().pwd().display(), "/l");
    assert_eq!(ui.left_panel().model().selected(), Some(2));

    ui.handle_key(Key::End);
    quiet(ui.handle_key(ENTER));
    ui.change_dir(Err(IoError { message: String::from("gone") }));
    assert_eq!(ui.left_panel().pwd().display(), "/l");
    assert!(ui.left_panel().model().last_error().is_none());
}

#[test]
fn control_keys_sort_the_panel() {
    let mut ui = screen();
    quiet(ui.handle_key(Key::Ctrl('s')));
    assert_eq!(ui.left_panel().sort_predicate(), TableSortPredicate::Size);
    assert_eq!(names(ui.left_panel().model().files()), vec!["..", "d", "b", "a"]);
    quiet(ui.handle_key(Key::Ctrl('d')));
    assert_eq!(ui.left_panel().sort_direction(), TableSortDirection::Descending);
    assert_eq!(names(ui.left_panel().model().files()), vec!["..", "d", "a", "b"]);
    quiet(ui.handle_key(Key::Ctrl('n')));
    assert_eq!(names(ui.left_panel().model().files()), vec!["..", "d", "b", "a"]);
    quiet(ui.handle_key(Key::Ctrl('u')));
    assert_eq!(names(ui.left_panel().model().files()), vec!["..", "d", "a", "b"]);
    quiet(ui.handle_key(Key::Ctrl('l')));
    assert_eq!(ui.left_panel().sort_predicate(), TableSortPredicate::LastModified);
    quiet(ui.handle_key(Key::Ctrl('x')));
    assert_eq!(ui.left_panel().sort_predicate(), TableSortPredicate::LastModified);
    assert_eq!(ui.right_panel().sort_predicate(), TableSortPredicate::Name);
}

#[test]
fn f1_opens_the_help_and_enter_closes_it() {
    let mut ui = screen();
    quiet(ui.handle_key(Key::F(1)));
    assert_eq!(ui.input_mode(), InputMode::Editing);
    assert!(matches!(ui.dialog(), Some(Dialog::Help(_))));
    assert_eq!(ui.focused_widget(), Widgets::TwinPanel);
    quiet(ui.tick(WorkerEvent::Idle));
    assert!(ui.dialog().is_some());
    quiet(ui.handle_key(Key::Down));
    assert_eq!(ui.left_panel().model().selected(), Some(0));
    quiet(ui.handle_key(Key::Esc));
    assert!(ui.dialog().is_some());
    quiet(ui.tick(WorkerEvent::Idle));
    assert!(ui.dialog().is_none());
    assert_eq!(ui.input_mode(), InputMode::Normal);
}

#[test]
fn f5_copies_what_is_selected_into_the_other_panel() {
    let mut ui = screen();
    ui.handle_key(Key::End);
    quiet(ui.handle_key(Key::F(5)));
    assert_eq!(ui.input_mode(), InputMode::Editing);
    assert_eq!(ui.focused_widget(), Widgets::Dialog);
    match ui.dialog() {
        Some(Dialog::Copy(dialog)) => {
            assert_eq!(dialog.source().display(), "/l/b");
            assert_eq!(dialog.destination().display(), "/r");
            assert_eq!(dialog.status(), TransferDialogStatus::WaitingForConfirmation);
        },
        other => panic!("{:?}", other),
    }
    assert!(matches!(ui.handle_key(ENTER), Request::StartTransfer));
    quiet(ui.handle_key(ENTER));
    quiet(ui.tick(WorkerEvent::Idle));
    assert!(ui.dialog().is_some());
    quiet(ui.tick(WorkerEvent::Gone));
    assert!(ui.dialog().is_none());
    assert_eq!(ui.input_mode(), InputMode::Normal);
    assert_eq!(ui.focused_widget(), Widgets::TwinPanel);
}

#[test]
fn f6_moves_and_escape_closes_the_dialog() {
    let mut ui = screen();
    ui.handle_key(Key::Char('\t'));
    ui.handle_key(Key::Down);
    quiet(ui.handle_key(Key::F(6)));
    match ui.dialog() {
        Some(Dialog::Move(dialog)) => {
            assert_eq!(dialog.source().display(), "/r/e");
            assert_eq!(dialog.destination().display(), "/l");
        },
        other => panic!("{:?}", other),
    }
    quiet(ui.handle_key(Key::Right));
    quiet(ui.handle_key(Key::Esc));
    assert!(ui.dialog().is_none());
    assert_eq!(ui.input_mode(), InputMode::Normal);
}

#[test]
fn a_cancelled_transfer_is_closed_by_the_next_tick() {
    let mut ui = screen();
    ui.handle_key(Key::F(5));
    ui.handle_key(Key::Left);
    quiet(ui.handle_key(ENTER));
    assert!(ui.dialog().is_some());
    quiet(ui.tick(WorkerEvent::Idle));
    assert!(ui.dialog().is_none());
}

#[test]
fn an_empty_panel_has_nothing_to_copy_move_or_delete() {
    let mut ui = UserInterface::new(Configuration::default(), Ok(vec![]), Ok(vec![]));
    for n in [5, 6, 8] {
        quiet(ui.handle_key(Key::F(n)));
        assert!(ui.dialog().is_none());
        assert_eq!(ui.input_mode(), InputMode::Normal);
    }
    quiet(ui.handle_key(ENTER));
    quiet(ui.handle_key(Key::F(2)));
    assert_eq!(ui.input_mode(), InputMode::Normal);
}

#[test]
fn f7_makes_a_directory() {
    let mut ui = screen();
    quiet(ui.handle_key(Key::F(7)));
    assert!(matches!(ui.dialog(), Some(Dialog::MkDir(_))));
    quiet(ui.handle_key(Key::Char('n')));
    quiet(ui.handle_key(Key::Char('1')));
    match ui.handle_key(ENTER) {
        Request::MakeDir(path) => assert_eq!(path.display(), "/l/n1"),
        other => panic!("{:?}", other),
    }
    ui.dir_created(Err(IoError { message: String::from("File exists") }));
    quiet(ui.tick(WorkerEvent::Idle));
    assert!(ui.dialog().is_some());
    quiet(ui.handle_key(ENTER));
    assert!(matches!(ui.handle_key(ENTER), Request::MakeDir(_)));
    ui.dir_created(Ok(()));
    quiet(ui.tick(WorkerEvent::Idle));
    assert!(ui.dialog().is_none());
    ui.dir_created(Ok(()));
    assert!(ui.dialog().is_none());
}

#[test]
fn f8_deletes_what_is_selected() {
    let mut ui = screen();
    ui.handle_key(Key::Down);
    quiet(ui.handle_key(Key::F(8)));
    match ui.dialog() {
        Some(Dialog::RmDir(dialog)) => {
            assert_eq!(dialog.files().len(), 1);
            assert_eq!(dialog.get_name(), "/l/d");
        },
        other => panic!("{:?}", other),
    }
    quiet(ui.handle_key(Key::Char('\t')));
    assert!(matches!(ui.handle_key(ENTER), Request::DeleteFiles));
    quiet(ui.tick(WorkerEvent::Idle));
    assert!(ui.dialog().is_some());
    ui.files_deleted();
    quiet(ui.tick(WorkerEvent::Idle));
    assert!(ui.dialog().is_none());
    ui.files_deleted();
    assert!(ui.dialog().is_none());
}

#[test]
fn f9_opens_the_menu_and_escape_closes_it() {
    let mut ui = screen();
    quiet(ui.handle_key(Key::F(9)));
    assert_eq!(ui.input_mode(), InputMode::Menu);
    assert!(ui.top_menu().items()[0].is_selected());
    quiet(ui.handle_key(Key::Right));
    assert_eq!(ui.top_menu().selected_item(), 1);
    quiet(ui.handle_key(Key::Left));
    quiet(ui.handle_key(Key::Down));
    assert_eq!(ui.top_menu().items()[0].highlighted_item_idx(), 1);
    quiet(ui.handle_key(Key::Up));
    quiet(ui.handle_key(Key::Char('q')));
    quiet(ui.handle_key(Key::F(1)));
    assert_eq!(ui.input_mode(), InputMode::Menu);
    quiet(ui.handle_key(Key::Esc));
    assert_eq!(ui.input_mode(), InputMode::Normal);
    assert!(!ui.top_menu().items()[0].is_selected());
    ui.handle_key(Key::F(9));
    quiet(ui.handle_key(Key::F(9)));
    assert_eq!(ui.input_mode(), InputMode::Normal);
}

#[test]
fn the_menu_sorts_the_left_panel() {
    let mut ui = screen();
    ui.handle_key(Key::F(9));
    quiet(ui.handle_key(ENTER));
    assert_eq!(ui.input_mode(), InputMode::Editing);
    assert!(matches!(ui.dialog(), Some(Dialog::Menu(MenuDialog::Sorting(_)))));
    assert!(!ui.top_menu().items()[0].is_selected());
    ui.handle_key(Key::Down);
    ui.handle_key(ENTER);
    for key in [Key::Right, Key::Down, ENTER, Key::Down, Key::Left] {
        quiet(ui.handle_key(key));
    }
    quiet(ui.tick(WorkerEvent::Idle));
    assert!(ui.dialog().is_some());
    quiet(ui.handle_key(ENTER));
    assert!(matches!(ui.tick(WorkerEvent::Idle), Request::ReloadLeft));
    assert!(ui.dialog().is_none());
    assert_eq!(ui.input_mode(), InputMode::Normal);
    assert_eq!(ui.config().left_table_config().sort_predicate(), "size");
    assert_eq!(ui.config().left_table_config().sort_direction(), "desc");
    assert_eq!(ui.config().right_table_config().sort_predicate(), "name");
    ui.reload_left(Ok(vec![file("b", 2), dir("d"), file("a", 5)]));
    assert_eq!(ui.left_panel().sort_predicate(), TableSortPredicate::Size);
    assert_eq!(ui.left_panel().sort_direction(), TableSortDirection::Descending);
    assert_eq!(names(ui.left_panel().model().files()), vec!["..", "d", "a", "b"]);
}

#[test]
fn the_menu_sets_the_options_of_both_panels() {
    let mut ui = screen();
    ui.handle_key(Key::F(9));
    ui.handle_key(Key::Right);
    quiet(ui.handle_key(ENTER));
    assert!(matches!(ui.dialog(), Some(Dialog::Menu(MenuDialog::Options(_)))));
    for key in [ENTER, Key::Down, Key::Left, ENTER] {
        quiet(ui.handle_key(key));
    }
    assert!(matches!(ui.tick(WorkerEvent::Idle), Request::ReloadBoth));
    assert!(ui.config().show_hidden_files());
    ui.reload_both(Ok(vec![dir(".x")]), Ok(vec![dir(".h"), dir("e")]));
    assert_eq!(names(ui.left_panel().model().files()), vec!["..", ".x"]);
    assert_eq!(names(ui.right_panel().model().files()), vec!["..", ".h", "e"]);
}

#[test]
fn the_menu_sorts_the_right_panel() {
    let mut ui = screen();
    ui.handle_key(Key::Char('\t'));
    ui.handle_key(Key::F(9));
    ui.handle_key(Key::Right);
    ui.handle_key(Key::Right);
    ui.handle_key(ENTER);
    for key in [Key::Right, Key::Down, ENTER, Key::Down, Key::Left, ENTER] {
        quiet(ui.handle_key(key));
    }
    assert!(matches!(ui.tick(WorkerEvent::Idle), Request::ReloadRight));
    assert_eq!(ui.config().right_table_config().sort_direction(), "desc");
    assert_eq!(ui.config().left_table_config().sort_direction(), "asc");
    ui.reload_right(Ok(vec![dir("f"), dir("e")]));
    assert_eq!(names(ui.right_panel().model().files()), vec!["..", "f", "e"]);
}

#[test]
fn a_cancelled_menu_dialog_changes_nothing() {
    let mut ui = screen();
    ui.handle_key(Key::F(9));
    ui.handle_key(ENTER);
    for key in [Key::Down, ENTER, Key::Right, Key::Down, Key::Down, ENTER] {
        quiet(ui.handle_key(key));
    }
    quiet(ui.tick(WorkerEvent::Idle));
    assert!(ui.dialog().is_none());
    assert_eq!(ui.config().left_table_config().sort_predicate(), "name");

    ui.handle_key(Key::F(9));
    ui.handle_key(ENTER);
    quiet(ui.handle_key(Key::Esc));
    assert!(ui.dialog().is_none());
    assert_eq!(ui.input_mode(), InputMode::Normal);
}

#[test]
fn the_settings_take_what_the_panels_show() {
    let mut ui = screen();
    ui.handle_key(Key::Ctrl('s'));
    ui.handle_key(Key::Char('\t'));
    ui.handle_key(Key::Ctrl('d'));
    ui.handle_key(Key::Down);
    ui.handle_key(ENTER);
    ui.change_dir(Ok(vec![]));
    ui.update_config();
    let config = ui.config();
    assert_eq!(config.left_table_config().path(), "/l");
    assert_eq!(config.left_table_config().sort_predicate(), "size");
    assert_eq!(config.left_table_config().sort_direction(), "asc");
    assert_eq!(config.right_table_config().path(), "/r/e");
    assert_eq!(config.right_table_config().sort_predicate(), "name");
    assert_eq!(config.right_table_config().sort_direction(), "desc");
}

#[test]
fn the_sorting_dialog_walks_through_its_lists() {
    let mut dialog =
        SortingDialog::new(TableSortPredicate::Size, TableSortDirection::Descending);
    let state = dialog.state();
    assert_eq!(state.components, Components::PredicateColumn);
    assert_eq!(state.predicate_selected, 1);
    assert_eq!(state.predicate_shown, Some(1));
    assert_eq!(state.direction_selected, 1);
    assert_eq!(state.direction_shown, None);
    assert_eq!(state.focused_button, Buttons::Cancel);
    assert!(!dialog.should_quit());
    assert_eq!(dialog.predicate_options(), vec!["[ ] Name", "[X] Size", "[ ] Last modified"]);
    assert_eq!(dialog.direction_options(), vec!["[ ] Ascending", "[X] Descending"]);

    dialog.handle_keys(Key::Up);
    dialog.handle_keys(Key::Up);
    assert_eq!(dialog.state().predicate_selected, 0);
    dialog.handle_keys(ENTER);
    assert_eq!(dialog.state().predicate, TableSortPredicate::Name);
    dialog.handle_keys(Key::Down);
    dialog.handle_keys(Key::Down);
    assert_eq!(dialog.state().predicate_selected, 2);
    dialog.handle_keys(ENTER);
    assert_eq!(dialog.state().predicate, TableSortPredicate::LastModified);
    dialog.handle_keys(Key::Down);
    assert_eq!(dialog.state().components, Components::DirectionColumn);
    assert_eq!(dialog.state().predicate_shown, None);
    assert_eq!(dialog.state().direction_shown, Some(1));
    dialog.handle_keys(Key::Up);
    dialog.handle_keys(Key::Up);
    dialog.handle_keys(ENTER);
    assert_eq!(dialog.state().direction, TableSortDirection::Ascending);
    dialog.handle_keys(Key::Left);
    assert_eq!(dialog.state().components, Components::PredicateColumn);
    dialog.handle_keys(Key::Right);
    dialog.handle_keys(Key::Down);
    dialog.handle_keys(Key::Down);
    assert_eq!(dialog.state().components, Components::Buttons);
    dialog.handle_keys(Key::Up);
    assert_eq!(dialog.state().components, Components::PredicateColumn);
    dialog.handle_keys(Key::Right);
    dialog.handle_keys(Key::Down);
    dialog.handle_keys(Key::Down);
    assert_eq!(dialog.state().components, Components::DirectionColumn);
    dialog.handle_keys(Key::Down);
    dialog.handle_keys(Key::Char('x'));
    dialog.handle_keys(Key::Right);
    assert_eq!(dialog.state().focused_button, Buttons::Confirm);
    assert!(!dialog.request_config_change());
    dialog.handle_keys(ENTER);
    assert!(dialog.should_quit());
    assert!(dialog.request_config_change());

    let mut config = Configuration::default();
    dialog.change_configuration(&mut config, ActivePanel::Right);
    assert_eq!(config.right_table_config().sort_predicate(), "modified");
    assert_eq!(config.right_table_config().sort_direction(), "asc");
    assert_eq!(config.left_table_config().sort_predicate(), "name");
    dialog.change_configuration(&mut config, ActivePanel::Left);
    assert_eq!(config.left_table_config().sort_predicate(), "modified");
}

#[test]
fn the_options_dialog_turns_its_option() {
    let mut dialog = PanelOpionsDialog::new(&Configuration::default());
    let state = dialog.state();
    assert_eq!(state.component, OptionComponents::OptionsList);
    assert_eq!(state.list_shown, Some(0));
    assert_eq!(state.focused_button, Buttons::Cancel);
    assert!(!state.show_hidden_files);
    assert_eq!(dialog.options(), vec!["[ ] Show hidden files"]);
    dialog.handle_keys(Key::Up);
    dialog.handle_keys(ENTER);
    assert_eq!(dialog.options(), vec!["[X] Show hidden files"]);
    dialog.handle_keys(ENTER);
    dialog.handle_keys(ENTER);
    assert!(dialog.state().show_hidden_files);
    dialog.handle_keys(Key::Right);
    assert_eq!(dialog.state().component, OptionComponents::Buttons);
    assert_eq!(dialog.state().list_shown, None);
    dialog.handle_keys(Key::Up);
    assert_eq!(dialog.state().component, OptionComponents::OptionsList);
    assert_eq!(dialog.state().list_shown, Some(0));
    dialog.handle_keys(Key::Down);
    assert_eq!(dialog.state().component, OptionComponents::Buttons);
    dialog.handle_keys(Key::Down);
    dialog.handle_keys(ENTER);
    assert!(dialog.should_quit());
    assert!(!dialog.request_config_change());

    let mut dialog = PanelOpionsDialog::new(&Configuration::default());
    dialog.handle_keys(ENTER);
    dialog.handle_keys(Key::Down);
    dialog.handle_keys(Key::Left);
    dialog.handle_keys(ENTER);
    assert!(dialog.should_quit());
    assert!(dialog.request_config_change());
    let mut config = Configuration::default();
    dialog.change_configuration(&mut config, ActivePanel::Left);
    assert!(config.show_hidden_files());
}

#[test]
fn option_lines() {
    assert_eq!(option_label(true, "Name"), "[X] Name");
    assert_eq!(option_label(false, "Name"), "[ ] Name");
    assert_eq!(option_label(false, ""), "[ ] ");
}

#[test]
fn the_heads_of_the_columns_mark_the_sort() {
    let up = TableSortDirection::Ascending;
    let down = TableSortDirection::Descending;
    let name = TableSortPredicate::Name;
    let size = TableSortPredicate::Size;
    let date = TableSortPredicate::LastModified;
    assert_eq!(header_cells(name, up), ["Name▼", "Size", "Last modified"]);
    assert_eq!(header_cells(size, up), ["Name", "Size▼", "Last modified"]);
    assert_eq!(header_cells(date, up), ["Name", "Size", "Last modified▼"]);
    assert_eq!(header_cells(name, down), ["Name▲", "Size", "Last modified"]);
    assert_eq!(header_cells(size, down), ["Name", "Size▲", "Last modified"]);
    assert_eq!(header_cells(date, down), ["Name", "Size", "Last modified▲"]);
}

#[test]
fn the_name_column_takes_what_is_left() {
    assert_eq!(name_column_width(80), 53);
    assert_eq!(name_column_width(27), 0);
    assert_eq!(name_column_width(28), 1);
    assert_eq!(name_column_width(0), 0);
    assert_eq!(name_column_width(u16::MAX), u16::MAX - 27);
}

#[test]
fn the_top_menu_answers_its_keys() {
    let mut menu = TopMenu::new();
    assert_eq!(menu_command(Key::F(9)), MenuCommand::Toggle);
    assert_eq!(menu_command(Key::F(10)), MenuCommand::Cancel);
    assert_eq!(menu_command(Key::Esc), MenuCommand::Cancel);
    assert_eq!(menu_command(Key::F(8)), MenuCommand::Ignore);
    assert_eq!(menu_command(Key::Char('a')), MenuCommand::Ignore);

    assert_eq!(
        menu.on(Key::F(9), false),
        Some(ApplicationMessage::TopMenu(TopMenuMessage::Focus))
    );
    assert!(menu.state().items()[0].is_selected());
    assert_eq!(menu.on(Key::Right, true), Some(ApplicationMessage::Tick));
    assert_eq!(menu.state().selected_item(), 1);
    assert_eq!(menu.on(Key::Left, true), Some(ApplicationMessage::Tick));
    assert_eq!(menu.on(Key::Down, true), Some(ApplicationMessage::Tick));
    assert_eq!(menu.state().items()[0].highlighted_item_idx(), 1);
    assert_eq!(menu.on(Key::Up, true), Some(ApplicationMessage::Tick));
    assert_eq!(menu.on(Key::Char('a'), true), None);
    assert_eq!(menu.on(Key::F(9), true), Some(ApplicationMessage::FocusBottomMenu));
    assert!(!menu.state().items()[0].is_selected());
    assert_eq!(menu.on(Key::Esc, false), Some(ApplicationMessage::FocusBottomMenu));
    assert_eq!(menu.perform(MenuCommand::Ignore, true), None);
}

#[test]
fn the_bottom_menu_answers_f9_and_f10() {
    assert_eq!(
        bottom_menu_on(Key::F(9)),
        Some(ApplicationMessage::TopMenu(TopMenuMessage::Focus))
    );
    assert_eq!(bottom_menu_on(Key::F(10)), Some(ApplicationMessage::Close));
    assert_eq!(bottom_menu_on(Key::F(1)), None);
    assert_eq!(bottom_menu_on(Key::Esc), None);
    assert_eq!(tick_rate(None), 250);
    assert_eq!(tick_rate(Some(60)), 60);
}

#[test]
fn the_viewer_gathers_what_is_read() {
    let mut viewer = TextFileViewer::new(PanelPath::parse("/etc/motd"));
    assert_eq!(viewer.file().display(), "/etc/motd");
    assert_eq!(viewer.buffer(), "");
    assert_eq!(viewer.read(Ok(String::from("hello "))), Ok(()));
    assert_eq!(viewer.read(Ok(String::from("world"))), Ok(()));
    assert_eq!(viewer.buffer(), "hello world");
    let error = IoError { message: String::from("gone") };
    assert_eq!(viewer.read(Err(error.duplicate())), Err(error));
    assert_eq!(viewer.buffer(), "hello world");
}
