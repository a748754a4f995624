use twc::menu::{MenuItem, MenuState, SubMenu, TopMenuMessage};
use twc::ui::{update, ActivePanel, ApplicationMessage, Update, UserInterfaces};

fn item(title: &str) -> MenuItem {
    MenuItem { title: String::from(title), highlighted: false }
}

fn open_groups(menu: &MenuState) -> Vec<bool> {
    menu.items().iter().map(|g| g.is_selected()).collect()
}

fn highlights(group: &SubMenu) -> Vec<bool> {
    group.items().iter().map(|i| i.highlighted).collect()
}

#[test]
fn the_menu_of_the_program() {
    let menu = MenuState::new_premade();
    let labels: Vec<&str> = menu.items().iter().map(|g| g.label().as_str()).collect();
    assert_eq!(labels, vec![" Left ", " Options ", " Right "]);
    assert_eq!(menu.selected_item(), 0);
    assert_eq!(open_groups(&menu), vec![false, false, false]);
    let titles: Vec<&str> = menu.items()[0].items().iter().map(|i| i.title.as_str()).collect();
    assert_eq!(titles, vec!["Sort order", "Filter"]);
    assert_eq!(menu.items()[0].width(), 10);
    assert_eq!(menu.items()[1].width(), 13);
    assert_eq!(menu.items()[1].items()[0].title, "Panel options");
}

#[test]
fn a_group_is_as_wide_as_its_widest_title() {
    assert_eq!(SubMenu::new(String::from("g"), vec![item("ab"), item("abcd"), item("a")]).width(), 4);
    assert_eq!(SubMenu::new(String::from("g"), vec![item("é")]).width(), 2);
    assert_eq!(SubMenu::new(String::from("g"), vec![]).width(), 0);
}

#[test]
fn activating_opens_the_first_group() {
    let mut menu = MenuState::new_premade();
    menu.select_next();
    menu.activate();
    assert_eq!(menu.selected_item(), 0);
    assert_eq!(open_groups(&menu), vec![true, true, false]);
    assert_eq!(highlights(&menu.items()[0]), vec![true, false]);
    menu.deactivate();
    assert_eq!(open_groups(&menu), vec![false, true, false]);
}

#[test]
fn left_and_right_move_between_groups() {
    let mut menu = MenuState::new_premade();
    menu.activate();
    menu.select_previous();
    assert_eq!(menu.selected_item(), 0);
    menu.select_next();
    assert_eq!(menu.selected_item(), 1);
    assert_eq!(open_groups(&menu), vec![false, true, false]);
    assert_eq!(highlights(&menu.items()[1]), vec![true]);
    menu.select_next();
    menu.select_next();
    assert_eq!(menu.selected_item(), 2);
    assert_eq!(open_groups(&menu), vec![false, false, true]);
    menu.select_previous();
    assert_eq!(menu.selected_item(), 1);
    assert_eq!(open_groups(&menu), vec![false, true, false]);
}

#[test]
fn up_and_down_move_within_a_group() {
    let mut menu = MenuState::new_premade();
    menu.activate();
    menu.up();
    assert_eq!(menu.items()[0].highlighted_item_idx(), 0);
    menu.down();
    assert_eq!(menu.items()[0].highlighted_item_idx(), 1);
    assert_eq!(highlights(&menu.items()[0]), vec![false, true]);
    menu.down();
    assert_eq!(menu.items()[0].highlighted_item_idx(), 1);
    menu.up();
    assert_eq!(highlights(&menu.items()[0]), vec![true, false]);
    menu.select_next();
    menu.select_previous();
    assert_eq!(highlights(&menu.items()[0]), vec![true, false]);
}

#[test]
fn a_menu_without_groups_stays_as_it_is() {
    let mut menu = MenuState::new(Vec::new());
    menu.activate();
    menu.select_next();
    menu.select_previous();
    menu.up();
    menu.down();
    menu.select_current();
    menu.deselect_current();
    menu.deactivate();
    assert_eq!(menu.selected_item(), 0);
    assert!(menu.items().is_empty());
}

#[test]
fn a_group_highlights_its_current_item() {
    let mut group = SubMenu::new(String::from("g"), vec![item("a"), item("b"), item("c")]);
    assert_eq!(highlights(&group), vec![false, false, false]);
    group.select_current();
    assert_eq!(highlights(&group), vec![true, false, false]);
    group.down();
    group.down();
    group.down();
    assert_eq!(highlights(&group), vec![false, false, true]);
    group.deselect_current();
    assert_eq!(highlights(&group), vec![false, false, false]);
    group.select_first();
    assert_eq!(group.highlighted_item_idx(), 0);
    assert_eq!(highlights(&group), vec![true, false, false]);
    let mut empty = SubMenu::new(String::from("e"), vec![]);
    empty.select_current();
    empty.up();
    empty.down();
    empty.select_first();
    assert!(empty.items().is_empty());
}

#[test]
fn the_focus_switches_between_the_panels() {
    let mut panel = ActivePanel::Left;
    panel.switch();
    assert_eq!(panel, ActivePanel::Right);
    panel.switch();
    assert_eq!(panel, ActivePanel::Left);
}

#[test]
fn messages_and_what_follows_them() {
    let tick = Some(ApplicationMessage::Tick);
    let bottom = Some(UserInterfaces::BottomMenu);
    assert_eq!(
        update(ApplicationMessage::Close, bottom),
        Update { quit: true, focus: None, next: None }
    );
    assert_eq!(
        update(ApplicationMessage::FocusBottomMenu, Some(UserInterfaces::Topmenu)),
        Update { quit: false, focus: bottom, next: tick }
    );
    assert_eq!(
        update(ApplicationMessage::TopMenu(TopMenuMessage::Blur), None),
        Update { quit: false, focus: bottom, next: tick }
    );
    assert_eq!(
        update(ApplicationMessage::TopMenu(TopMenuMessage::Focus), bottom),
        Update { quit: false, focus: Some(UserInterfaces::Topmenu), next: tick }
    );
    assert_eq!(
        update(ApplicationMessage::TopMenu(TopMenuMessage::Focus), Some(UserInterfaces::Topmenu)),
        Update { quit: false, focus: None, next: tick }
    );
    assert_eq!(
        update(ApplicationMessage::TopMenu(TopMenuMessage::Focus), None),
        Update { quit: false, focus: None, next: tick }
    );
    assert_eq!(
        update(ApplicationMessage::Tick, bottom),
        Update { quit: false, focus: None, next: None }
    );
}
