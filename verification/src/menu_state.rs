//! The main menu: three items and a cursor that wraps around.

use vstd::prelude::*;

verus! {

/// An item of the main menu.
#[derive(Debug, Clone, Copy, PartialEq, Eq, Structural)]
pub enum MenuItem {
    Start,
    Leaderboard,
    Exit,
}

impl MenuItem {
    /// The menu as it is listed, top to bottom.
    pub open spec fn all() -> Seq<MenuItem> {
        seq![MenuItem::Start, MenuItem::Leaderboard, MenuItem::Exit]
    }

    /// Where the item stands in the list, counted from the top.
    pub open spec fn index(self) -> int {
        match self {
            MenuItem::Start => 0,
            MenuItem::Leaderboard => 1,
            MenuItem::Exit => 2,
        }
    }

    /// The item one step down the list, the top one after the bottom one.
    pub open spec fn below(self) -> MenuItem {
        MenuItem::all()[(self.index() + 1) % 3]
    }

    /// The item one step up the list, the bottom one before the top one.
    pub open spec fn above(self) -> MenuItem {
        MenuItem::all()[(self.index() + 2) % 3]
    }
}

/// The menu cursor goes round in a circle: a step up undoes a step down and
/// the other way round, and three steps either way lead back to the start.
pub proof fn lemma_menu_cursor_is_cyclic(item: MenuItem)
    ensures
        MenuItem::all()[item.index()] == item,
        item.below().above() == item,
        item.above().below() == item,
        item.below().below().below() == item,
        item.above().above().above() == item,
{
}

/// Which item of the main menu the cursor is on.
pub struct MenuState {
    pub selected_item: MenuItem,
}

impl MenuState {
    /// A menu with the cursor on the first item.
    pub fn new() -> (menu: MenuState)
        ensures
            menu.selected_item == MenuItem::Start,
    {
        MenuState { selected_item: MenuItem::Start }
    }

    /// Moves the cursor one item up, from the top item to the bottom one.
    pub fn move_up(&mut self)
        ensures
            final(self).selected_item == old(self).selected_item.above(),
    {
        self.selected_item =
        match self.selected_item {
            MenuItem::Start => MenuItem::Exit,
            MenuItem::Leaderboard => MenuItem::Start,
            MenuItem::Exit => MenuItem::Leaderboard,
        };
    }

    /// Moves the cursor one item down, from the bottom item to the top one.
    pub fn move_down(&mut self)
        ensures
            final(self).selected_item == old(self).selected_item.below(),
    {
        self.selected_item =
        match self.selected_item {
            MenuItem::Start => MenuItem::Leaderboard,
            MenuItem::Leaderboard => MenuItem::Exit,
            MenuItem::Exit => MenuItem::Start,
        };
    }

    /// The items of the menu in the order they are listed.
    pub fn get_items() -> (items: Vec<MenuItem>)
        ensures
            items@ == MenuItem::all(),
    {
        let mut items: Vec<MenuItem> = Vec::new();
        items.push(MenuItem::Start);
        items.push(MenuItem::Leaderboard);
        items.push(MenuItem::Exit);
        items
    }
}

} // verus!
