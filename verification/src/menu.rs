//! The menu bar: groups of items, one group open at a time.

use vstd::prelude::*;
use vstd::utf8::encode_utf8;
use crate::keys::Key;
use crate::ui::ApplicationMessage;

verus! {

/// What the menu bar tells the program.
#[derive(Copy, Clone, Debug, PartialEq, Eq, Structural)]
pub enum TopMenuMessage {
    /// The menu bar gives the focus up.
    Blur,
    /// The menu bar takes the focus.
    Focus,
}

/// One item of a group.
#[derive(Debug)]
pub struct MenuItem {
    pub title: String,
    pub highlighted: bool,
}

/// The mathematical value of a [`MenuItem`].
pub struct MenuItemView {
    pub title: Seq<char>,
    pub highlighted: bool,
}

impl View for MenuItem {
    type V = MenuItemView;

    open spec fn view(&self) -> MenuItemView {
        MenuItemView { title: self.title@, highlighted: self.highlighted }
    }
}

/// The values of the items, in order.
pub open spec fn items_view(items: Seq<MenuItem>) -> Seq<MenuItemView> {
    Seq::new(items.len(), |i: int| items[i]@)
}

/// The width of the widest title among the first `count` items, in bytes.
pub open spec fn widest_title(items: Seq<MenuItemView>, count: int) -> nat
    decreases count,
{
    if count <= 0 {
        0
    } else {
        let ahead = widest_title(items, count - 1);
        let width = encode_utf8(items[count - 1].title).len();
        if width >= ahead {
            width
        } else {
            ahead
        }
    }
}

/// The mathematical value of a [`SubMenu`].
pub struct SubMenuView {
    pub label: Seq<char>,
    pub items: Seq<MenuItemView>,
    pub highlighted_item_idx: usize,
    pub selected: bool,
    pub width: usize,
}

impl SubMenuView {
    /// The group with the highlight of its current item set as given. A
    /// group whose current item does not exist stays as it is.
    pub open spec fn with_highlight(self, highlighted: bool) -> SubMenuView {
        if self.highlighted_item_idx < self.items.len() {
            SubMenuView {
                items: self.items.update(
                    self.highlighted_item_idx as int,
                    MenuItemView { highlighted, ..self.items[self.highlighted_item_idx as int] },
                ),
                ..self
            }
        } else {
            self
        }
    }

    /// The group with another item as the current one: the highlight goes
    /// from the old one to the new one.
    pub open spec fn moved_to(self, index: usize) -> SubMenuView {
        (SubMenuView { highlighted_item_idx: index, ..self.with_highlight(false) }).with_highlight(
            true,
        )
    }

    /// The group after a step up: the item above becomes the current one,
    /// unless the current one is the first or does not exist.
    pub open spec fn stepped_up(self) -> SubMenuView {
        if self.highlighted_item_idx < self.items.len() && self.highlighted_item_idx > 0 {
            self.moved_to((self.highlighted_item_idx - 1) as usize)
        } else {
            self
        }
    }

    /// The group after a step down: the item below becomes the current
    /// one, unless the current one is the last or does not exist.
    pub open spec fn stepped_down(self) -> SubMenuView {
        if self.highlighted_item_idx + 1 < self.items.len() {
            self.moved_to((self.highlighted_item_idx + 1) as usize)
        } else {
            self
        }
    }
}

/// A group of the menu bar.
#[derive(Debug)]
pub struct SubMenu {
    label: String,
    items: Vec<MenuItem>,
    highlighted_item_idx: usize,
    selected: bool,
    width: usize,
}

impl View for SubMenu {
    type V = SubMenuView;

    closed spec fn view(&self) -> SubMenuView {
        SubMenuView {
            label: self.label@,
            items: items_view(self.items@),
            highlighted_item_idx: self.highlighted_item_idx,
            selected: self.selected,
            width: self.width,
        }
    }
}

impl SubMenu {
    /// A closed group with the given items, none of them highlighted yet
    /// by the group, and the first as the current one. Its width is that of
    /// its widest title.
    pub fn new(label: String, items: Vec<MenuItem>) -> (r: Self)
        ensures
            r@ == (SubMenuView {
                label: label@,
                items: items_view(items@),
                highlighted_item_idx: 0,
                selected: false,
                width: widest_title(items_view(items@), items@.len() as int) as usize,
            }),
            widest_title(items_view(items@), items@.len() as int) <= usize::MAX,
    {
        let mut longest_width: usize = 0;
        let mut i: usize = 0;
        while i < items.len()
            invariant
                i <= items.len(),
                longest_width == widest_title(items_view(items@), i as int),
            decreases items.len() - i,
        {
            let width = items[i].title.as_str().as_bytes().len();
            if width >= longest_width {
                longest_width = width;
            }
            i += 1;
        }
        SubMenu { label, items, highlighted_item_idx: 0, selected: false, width: longest_width }
    }

    pub fn label(&self) -> (r: &String)
        ensures
            r@ == self@.label,
    {
        &self.label
    }

    pub fn items(&self) -> (r: &Vec<MenuItem>)
        ensures
            items_view(r@) == self@.items,
    {
        &self.items
    }

    pub fn highlighted_item_idx(&self) -> (r: usize)
        ensures
            r == self@.highlighted_item_idx,
    {
        self.highlighted_item_idx
    }

    pub fn is_selected(&self) -> (r: bool)
        ensures
            r == self@.selected,
    {
        self.selected
    }

    pub fn width(&self) -> (r: usize)
        ensures
            r == self@.width,
    {
        self.width
    }

    fn set_highlight(&mut self, highlighted: bool)
        ensures
            final(self)@ == old(self)@.with_highlight(highlighted),
    {
        let index = self.highlighted_item_idx;
        if index < self.items.len() {
            let title = self.items[index].title.clone();
            self.items.set(index, MenuItem { title, highlighted });
            assert(self@.items =~= old(self)@.with_highlight(highlighted).items);
        }
    }

    /// Highlights the current item.
    pub fn select_current(&mut self)
        ensures
            final(self)@ == old(self)@.with_highlight(true),
    {
        self.set_highlight(true);
    }

    /// Takes the highlight from the current item.
    pub fn deselect_current(&mut self)
        ensures
            final(self)@ == old(self)@.with_highlight(false),
    {
        self.set_highlight(false);
    }

    /// Makes the first item the current one.
    pub fn select_first(&mut self)
        ensures
            final(self)@ == old(self)@.moved_to(0),
    {
        self.move_to(0);
    }

    fn move_to(&mut self, index: usize)
        ensures
            final(self)@ == old(self)@.moved_to(index),
    {
        self.deselect_current();
        self.highlighted_item_idx = index;
        self.select_current();
    }

    /// Makes the item above the current one.
    pub fn up(&mut self)
        ensures
            final(self)@ == old(self)@.stepped_up(),
    {
        let index = self.highlighted_item_idx;
        if index < self.items.len() && index > 0 {
            self.move_to(index - 1);
        }
    }

    /// Makes the item below the current one.
    pub fn down(&mut self)
        ensures
            final(self)@ == old(self)@.stepped_down(),
    {
        let index = self.highlighted_item_idx;
        if index < self.items.len() && index + 1 < self.items.len() {
            self.move_to(index + 1);
        }
    }

    fn set_selected(&mut self, selected: bool)
        ensures
            final(self)@ == (SubMenuView { selected, ..old(self)@ }),
    {
        self.selected = selected;
    }
}

/// The values of the groups, in order.
pub open spec fn groups_view(groups: Seq<SubMenu>) -> Seq<SubMenuView> {
    Seq::new(groups.len(), |i: int| groups[i]@)
}

/// The mathematical value of a [`MenuState`].
pub struct MenuStateView {
    pub items: Seq<SubMenuView>,
    pub selected_item_idx: usize,
}

impl MenuStateView {
    /// Whether the current group exists.
    pub open spec fn has_current(self) -> bool {
        self.selected_item_idx < self.items.len()
    }

    /// The menu bar with its current group changed by `change`. A menu
    /// bar whose current group does not exist stays as it is.
    pub open spec fn with_current(self, change: spec_fn(SubMenuView) -> SubMenuView)
        -> MenuStateView {
        if self.has_current() {
            MenuStateView {
                items: self.items.update(
                    self.selected_item_idx as int,
                    change(self.items[self.selected_item_idx as int]),
                ),
                ..self
            }
        } else {
            self
        }
    }

    /// The menu bar with its current group open or closed.
    pub open spec fn with_selected(self, selected: bool) -> MenuStateView {
        self.with_current(|group: SubMenuView| SubMenuView { selected, ..group })
    }

    /// The menu bar with another group as the current one: the old one is
    /// closed, the new one is opened with its first item as the current
    /// one.
    pub open spec fn moved_to(self, index: usize) -> MenuStateView {
        (MenuStateView { selected_item_idx: index, ..self.with_selected(false) }).with_current(
            |group: SubMenuView| (SubMenuView { selected: true, ..group }).moved_to(0),
        )
    }

    /// The menu bar once it is opened: the first group is the current one
    /// and is open, with its first item as the current one.
    pub open spec fn activated(self) -> MenuStateView {
        (MenuStateView { selected_item_idx: 0, ..self }).with_current(
            |group: SubMenuView| (SubMenuView { selected: true, ..group }).moved_to(0),
        )
    }

    /// The menu bar after a step up in the current group.
    pub open spec fn stepped_up(self) -> MenuStateView {
        self.with_current(|group: SubMenuView| group.stepped_up())
    }

    /// The menu bar after a step down in the current group.
    pub open spec fn stepped_down(self) -> MenuStateView {
        self.with_current(|group: SubMenuView| group.stepped_down())
    }

    /// The menu bar after a step to the left: nothing changes on the
    /// first group.
    pub open spec fn stepped_left(self) -> MenuStateView {
        if self.selected_item_idx == 0 {
            self
        } else {
            self.moved_to((self.selected_item_idx - 1) as usize)
        }
    }

    /// The menu bar after a step to the right: nothing changes on the
    /// last group.
    pub open spec fn stepped_right(self) -> MenuStateView {
        if self.selected_item_idx + 1 >= self.items.len() {
            self
        } else {
            self.moved_to((self.selected_item_idx + 1) as usize)
        }
    }
}

/// A closed group with the given label and item titles.
pub open spec fn closed_group(label: Seq<char>, titles: Seq<Seq<char>>) -> SubMenuView {
    let items = Seq::new(
        titles.len(),
        |i: int| MenuItemView { title: titles[i], highlighted: false },
    );
    SubMenuView {
        label,
        items,
        highlighted_item_idx: 0,
        selected: false,
        width: widest_title(items, items.len() as int) as usize,
    }
}

/// The menu bar of the program: a group for each panel, with the sort and
/// the filter, and between them the group of the options.
pub open spec fn premade_menu() -> MenuStateView {
    MenuStateView {
        items: seq![
            closed_group(" Left "@, seq!["Sort order"@, "Filter"@]),
            closed_group(" Options "@, seq!["Panel options"@]),
            closed_group(" Right "@, seq!["Sort order"@, "Filter"@]),
        ],
        selected_item_idx: 0,
    }
}

/// The state of the menu bar.
#[derive(Debug)]
pub struct MenuState {
    items: Vec<SubMenu>,
    selected_item_idx: usize,
}

impl View for MenuState {
    type V = MenuStateView;

    closed spec fn view(&self) -> MenuStateView {
        MenuStateView { items: groups_view(self.items@), selected_item_idx: self.selected_item_idx }
    }
}

impl MenuState {
    /// A menu bar with the given groups and the first as the current one.
    pub fn new(items: Vec<SubMenu>) -> (r: Self)
        ensures
            r@ == (MenuStateView { items: groups_view(items@), selected_item_idx: 0 }),
    {
        MenuState { items, selected_item_idx: 0 }
    }

    /// The groups.
    pub fn items(&self) -> (r: &Vec<SubMenu>)
        ensures
            groups_view(r@) == self@.items,
    {
        &self.items
    }

    /// The number of the current group.
    pub fn selected_item(&self) -> (r: usize)
        ensures
            r == self@.selected_item_idx,
    {
        self.selected_item_idx
    }

    /// Takes the current group out, to be changed and put back.
    fn take_current(&mut self) -> (group: SubMenu)
        requires
            old(self)@.has_current(),
        ensures
            group@ == old(self)@.items[old(self)@.selected_item_idx as int],
            final(self).selected_item_idx == old(self).selected_item_idx,
            final(self).items@ == old(self).items@.remove(old(self).selected_item_idx as int),
    {
        self.items.remove(self.selected_item_idx)
    }

    /// Puts a group back where the current one was taken out.
    fn put_current(&mut self, group: SubMenu, Ghost(before): Ghost<MenuStateView>)
        requires
            before.has_current(),
            old(self).selected_item_idx == before.selected_item_idx,
            groups_view(old(self).items@) == before.items.remove(before.selected_item_idx as int),
        ensures
            final(self)@ == (MenuStateView {
                items: before.items.update(before.selected_item_idx as int, group@),
                ..before
            }),
    {
        let ghost rest = groups_view(self.items@);
        assert(rest.len() == self.items@.len());
        assert(rest.len() == before.items.len() - 1);
        self.items.insert(self.selected_item_idx, group);
        assert forall|i: int| 0 <= i < self@.items.len() implies self@.items[i]
            == before.items.update(before.selected_item_idx as int, group@)[i] by {
            if i < before.selected_item_idx {
                assert(self@.items[i] == rest[i]);
            } else if i > before.selected_item_idx {
                assert(self@.items[i] == rest[i - 1]);
            }
        }
        assert(self@.items =~= before.items.update(before.selected_item_idx as int, group@));
    }

    /// Opens the menu: the first group becomes the current one and is
    /// opened, with its first item as the current one.
    pub fn activate(&mut self)
        ensures
            final(self)@ == old(self)@.activated(),
    {
        self.selected_item_idx = 0;
        self.open_current();
    }

    /// Opens the current group, with its first item as the current one.
    fn open_current(&mut self)
        ensures
            final(self)@ == old(self)@.with_current(
                |group: SubMenuView| (SubMenuView { selected: true, ..group }).moved_to(0),
            ),
    {
        if self.selected_item_idx < self.items.len() {
            let ghost before = self@;
            let mut group = self.take_current();
            group.set_selected(true);
            group.select_first();
            proof {
                assert(groups_view(self.items@) =~= before.items.remove(
                    before.selected_item_idx as int,
                ));
            }
            self.put_current(group, Ghost(before));
        }
    }

    /// Closes the menu: the current group is closed.
    pub fn deactivate(&mut self)
        ensures
            final(self)@ == old(self)@.with_selected(false),
    {
        self.deselect_current()
    }

    /// Makes the group to the left the current one.
    pub fn select_previous(&mut self)
        ensures
            final(self)@ == old(self)@.stepped_left(),
    {
        if self.selected_item_idx == 0 {
            return ;
        }
        self.deselect_current();
        self.selected_item_idx -= 1;
        self.open_current();
    }

    /// Makes the group to the right the current one.
    pub fn select_next(&mut self)
        ensures
            final(self)@ == old(self)@.stepped_right(),
    {
        if self.selected_item_idx >= self.items.len() || self.selected_item_idx + 1
            >= self.items.len() {
            return ;
        }
        self.deselect_current();
        self.selected_item_idx += 1;
        self.open_current();
    }

    /// Makes the item above the current one, in the current group.
    pub fn up(&mut self)
        ensures
            final(self)@ == old(self)@.stepped_up(),
    {
        if self.selected_item_idx < self.items.len() {
            let ghost before = self@;
            let mut group = self.take_current();
            group.up();
            proof {
                assert(groups_view(self.items@) =~= before.items.remove(
                    before.selected_item_idx as int,
                ));
            }
            self.put_current(group, Ghost(before));
        }
    }

    /// Makes the item below the current one, in the current group.
    pub fn down(&mut self)
        ensures
            final(self)@ == old(self)@.stepped_down(),
    {
        if self.selected_item_idx < self.items.len() {
            let ghost before = self@;
            let mut group = self.take_current();
            group.down();
            proof {
                assert(groups_view(self.items@) =~= before.items.remove(
                    before.selected_item_idx as int,
                ));
            }
            self.put_current(group, Ghost(before));
        }
    }

    /// Opens the current group.
    pub fn select_current(&mut self)
        ensures
            final(self)@ == old(self)@.with_selected(true),
    {
        self.set_current_selected(true);
    }

    /// Closes the current group.
    pub fn deselect_current(&mut self)
        ensures
            final(self)@ == old(self)@.with_selected(false),
    {
        self.set_current_selected(false);
    }

    fn set_current_selected(&mut self, selected: bool)
        ensures
            final(self)@ == old(self)@.with_selected(selected),
    {
        if self.selected_item_idx < self.items.len() {
            let ghost before = self@;
            let mut group = self.take_current();
            group.set_selected(selected);
            proof {
                assert(groups_view(self.items@) =~= before.items.remove(
                    before.selected_item_idx as int,
                ));
            }
            self.put_current(group, Ghost(before));
        }
    }

    /// The menu bar of the program: a group for each panel, and between
    /// them the group of the options.
    pub fn new_premade() -> (r: Self)
        ensures
            r@ == premade_menu(),
    {
        let mut groups: Vec<SubMenu> = Vec::new();
        groups.push(SubMenu::new(" Left ".to_owned(), panel_items()));
        groups.push(SubMenu::new(" Options ".to_owned(), option_items()));
        groups.push(SubMenu::new(" Right ".to_owned(), panel_items()));
        let r = MenuState::new(groups);
        proof {
            let panel = seq!["Sort order"@, "Filter"@];
            let options = seq!["Panel options"@];
            assert(r@.items[0].items =~= closed_group(" Left "@, panel).items);
            assert(r@.items[1].items =~= closed_group(" Options "@, options).items);
            assert(r@.items[2].items =~= closed_group(" Right "@, panel).items);
            assert(r@.items =~= premade_menu().items);
        }
        r
    }
}

/// The items of the group of a panel.
fn panel_items() -> (items: Vec<MenuItem>)
    ensures
        items.len() == 2,
        items[0]@ == (MenuItemView { title: "Sort order"@, highlighted: false }),
        items[1]@ == (MenuItemView { title: "Filter"@, highlighted: false }),
{
    let mut items: Vec<MenuItem> = Vec::new();
    items.push(MenuItem { title: "Sort order".to_owned(), highlighted: false });
    items.push(MenuItem { title: "Filter".to_owned(), highlighted: false });
    items
}

/// The items of the group of the options.
fn option_items() -> (items: Vec<MenuItem>)
    ensures
        items.len() == 1,
        items[0]@ == (MenuItemView { title: "Panel options"@, highlighted: false }),
{
    let mut items: Vec<MenuItem> = Vec::new();
    items.push(MenuItem { title: "Panel options".to_owned(), highlighted: false });
    items
}

/// What a key asks of the menu bar.
#[derive(Copy, Clone, Debug, PartialEq, Eq, Structural)]
pub enum MenuCommand {
    /// Open the menu if it is closed, and close it if it is open.
    Toggle,
    /// Close the menu.
    Cancel,
    Left,
    Right,
    Up,
    Down,
    /// Nothing.
    Ignore,
}

/// What a key asks of the menu bar: F9 toggles it, F10 and Escape close it,
/// the arrows move in it, and no other key concerns it.
pub open spec fn command_for(key: Key) -> MenuCommand {
    if key == Key::F(9) {
        MenuCommand::Toggle
    } else if key == Key::F(10) || key == Key::Esc {
        MenuCommand::Cancel
    } else if key == Key::Left {
        MenuCommand::Left
    } else if key == Key::Right {
        MenuCommand::Right
    } else if key == Key::Up {
        MenuCommand::Up
    } else if key == Key::Down {
        MenuCommand::Down
    } else {
        MenuCommand::Ignore
    }
}

/// What the menu bar answers to a command; `focused` says whether it has
/// the focus. Opening it asks for the focus, closing it gives the focus to
/// the bottom menu, a move asks for the screen to be made anew, and nothing
/// is answered to nothing.
pub open spec fn answer_to(command: MenuCommand, focused: bool) -> Option<ApplicationMessage> {
    match command {
        MenuCommand::Toggle => if focused {
            Some(ApplicationMessage::FocusBottomMenu)
        } else {
            Some(ApplicationMessage::TopMenu(TopMenuMessage::Focus))
        },
        MenuCommand::Cancel => Some(ApplicationMessage::FocusBottomMenu),
        MenuCommand::Left | MenuCommand::Right | MenuCommand::Up | MenuCommand::Down => Some(
            ApplicationMessage::Tick,
        ),
        MenuCommand::Ignore => None,
    }
}

/// The menu bar after a command; `focused` says whether it has the focus.
pub open spec fn is_performed(
    before: MenuStateView,
    after: MenuStateView,
    command: MenuCommand,
    focused: bool,
) -> bool {
    after == match command {
        MenuCommand::Toggle => if focused {
            before.with_selected(false)
        } else {
            before.activated()
        },
        MenuCommand::Cancel => before.with_selected(false),
        MenuCommand::Left => before.stepped_left(),
        MenuCommand::Right => before.stepped_right(),
        MenuCommand::Up => before.stepped_up(),
        MenuCommand::Down => before.stepped_down(),
        MenuCommand::Ignore => before,
    }
}

/// What a key asks of the menu bar.
pub fn menu_command(key: Key) -> (r: MenuCommand)
    ensures
        r == command_for(key),
{
    match key {
        Key::F(n) => if n == 9 {
            MenuCommand::Toggle
        } else if n == 10 {
            MenuCommand::Cancel
        } else {
            MenuCommand::Ignore
        },
        Key::Esc => MenuCommand::Cancel,
        Key::Left => MenuCommand::Left,
        Key::Right => MenuCommand::Right,
        Key::Up => MenuCommand::Up,
        Key::Down => MenuCommand::Down,
        _ => MenuCommand::Ignore,
    }
}

/// The menu bar at the top of the screen.
#[derive(Debug)]
pub struct TopMenu {
    state: MenuState,
}

impl View for TopMenu {
    type V = MenuStateView;

    closed spec fn view(&self) -> MenuStateView {
        self.state@
    }
}

impl TopMenu {
    /// The menu bar of the program, closed.
    pub fn new() -> (r: Self)
        ensures
            r@ == premade_menu(),
    {
        TopMenu { state: MenuState::new_premade() }
    }

    /// The state of the menu bar.
    pub fn state(&self) -> (r: &MenuState)
        ensures
            r@ == self@,
    {
        &self.state
    }

    /// Does what the command asks; `focused` says whether the menu bar has
    /// the focus.
    pub fn perform(&mut self, command: MenuCommand, focused: bool) -> (r: Option<
        ApplicationMessage,
    >)
        ensures
            r == answer_to(command, focused),
            is_performed(old(self)@, final(self)@, command, focused),
    {
        match command {
            MenuCommand::Toggle => {
                if focused {
                    self.state.deactivate();
                    Some(ApplicationMessage::FocusBottomMenu)
                } else {
                    self.state.activate();
                    Some(ApplicationMessage::TopMenu(TopMenuMessage::Focus))
                }
            },
            MenuCommand::Cancel => {
                self.state.deactivate();
                Some(ApplicationMessage::FocusBottomMenu)
            },
            MenuCommand::Left => {
                self.state.select_previous();
                Some(ApplicationMessage::Tick)
            },
            MenuCommand::Right => {
                self.state.select_next();
                Some(ApplicationMessage::Tick)
            },
            MenuCommand::Up => {
                self.state.up();
                Some(ApplicationMessage::Tick)
            },
            MenuCommand::Down => {
                self.state.down();
                Some(ApplicationMessage::Tick)
            },
            MenuCommand::Ignore => None,
        }
    }

    /// Takes a key; `focused` says whether the menu bar has the focus.
    pub fn on(&mut self, key: Key, focused: bool) -> (r: Option<ApplicationMessage>)
        ensures
            r == answer_to(command_for(key), focused),
            is_performed(old(self)@, final(self)@, command_for(key), focused),
    {
        self.perform(menu_command(key), focused)
    }
}

} // verus!
