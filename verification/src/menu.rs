//! The main menu: the choice between the list of maps and the list of
//! programs.

use crate::keys::{decode_in_list, list_intent, Intent, Key};
use crate::rows::{item_rows, TableRow};
use crate::selection::{next_index, previous_index};
use vstd::prelude::*;

verus! {

/// An entry of the main menu.
#[derive(Clone, Copy, Debug, PartialEq, Eq, Structural)]
pub enum MenuItem {
    Maps,
    Programs,
}

/// What the menu's caller does after a key.
#[derive(Clone, Copy, Debug, PartialEq, Eq, Structural)]
pub enum MenuCommand {
    /// Go on showing the menu.
    Stay,
    /// Leave.
    Quit,
    /// Show the list that the entry stands for, and leave when it is left.
    Open(MenuItem),
}

/// The entries of the menu, from the top.
pub open spec fn menu_entries() -> Seq<MenuItem> {
    seq![MenuItem::Maps, MenuItem::Programs]
}

/// The row of `item` in the menu.
pub open spec fn row_of(item: MenuItem) -> nat {
    match item {
        MenuItem::Maps => 0,
        MenuItem::Programs => 1,
    }
}

/// The rows of the menu's table: each entry's name and what it leads to.
pub open spec fn menu_rows() -> Seq<Seq<Seq<char>>> {
    seq![
        seq!["1. Maps"@, "Manage eBPF maps"@],
        seq!["2. Programs"@, "Manage eBPF programs"@],
    ]
}

/// The menu as plain values: the entry it is on. The selected row is the row
/// of that entry.
pub struct MenuView {
    pub state: MenuItem,
}

impl MenuView {
    /// The selected row.
    pub open spec fn selected(self) -> nat {
        row_of(self.state)
    }

    /// The menu after a move down: on the entry of the row below, or of the
    /// first row from the last.
    pub open spec fn next(self) -> MenuView {
        let row = next_index(Some(self.selected()), menu_entries().len());
        MenuView { state: menu_entries()[row.unwrap() as int] }
    }

    /// The menu after a move up: on the entry of the row above, or of the last
    /// row from the first.
    pub open spec fn prev(self) -> MenuView {
        let row = previous_index(Some(self.selected()), menu_entries().len());
        MenuView { state: menu_entries()[row.unwrap() as int] }
    }

    /// The menu after `key`.
    pub open spec fn after(self, key: Key) -> MenuView {
        match list_intent(key) {
            Some(Intent::Next) => self.next(),
            Some(Intent::Previous) => self.prev(),
            _ => self,
        }
    }

    /// What the caller does after `key`.
    pub open spec fn command(self, key: Key) -> MenuCommand {
        match list_intent(key) {
            Some(Intent::Quit) => MenuCommand::Quit,
            Some(Intent::Confirm) => MenuCommand::Open(self.state),
            _ => MenuCommand::Stay,
        }
    }
}

/// The main menu.
#[derive(Debug)]
pub struct MainMenu {
    state: MenuItem,
    items: Vec<MenuItem>,
}

impl View for MainMenu {
    type V = MenuView;

    closed spec fn view(&self) -> MenuView {
        MenuView { state: self.state }
    }
}

impl MainMenu {
    #[verifier::type_invariant]
    spec fn inv(self) -> bool {
        self.items@ == menu_entries()
    }

    /// The menu on its first entry, the maps.
    pub fn new() -> (menu: MainMenu)
        ensures
            menu@ == (MenuView { state: MenuItem::Maps }),
    {
        let mut items: Vec<MenuItem> = Vec::new();
        items.push(MenuItem::Maps);
        items.push(MenuItem::Programs);
        proof {
            assert(items@ =~= menu_entries());
        }
        MainMenu { state: MenuItem::Maps, items }
    }

    /// The entry that the menu is on.
    pub fn state(&self) -> (item: MenuItem)
        ensures
            item == self@.state,
    {
        self.state
    }

    /// The selected row: the place of the entry that the menu is on.
    pub fn selected(&self) -> (row: usize)
        ensures
            row == self@.selected(),
            row < menu_entries().len(),
    {
        proof {
            use_type_invariant(self);
        }
        let mut row: usize = 0;
        while row < self.items.len()
            invariant
                self.items@ == menu_entries(),
                row <= self.items@.len(),
                forall|i: int| 0 <= i < row ==> self.items@[i] != self.state,
            decreases self.items.len() - row,
        {
            if self.items[row] == self.state {
                return row;
            }
            row += 1;
        }
        proof {
            assert(self.items@[row_of(self.state) as int] == self.state);
        }
        0
    }

    /// Moves down one entry, from the last to the first.
    pub fn next(&mut self)
        ensures
            final(self)@ == old(self)@.next(),
    {
        proof {
            use_type_invariant(&*self);
        }
        let row = self.selected();
        assert(self.items@.len() == 2);
        let next_row = (row + 1) % self.items.len();
        self.state = self.items[next_row];
    }

    /// Moves up one entry, from the first to the last.
    pub fn prev(&mut self)
        ensures
            final(self)@ == old(self)@.prev(),
    {
        proof {
            use_type_invariant(&*self);
        }
        let row = self.selected();
        let prev_row = if row == 0 {
            self.items.len() - 1
        } else {
            row - 1
        };
        self.state = self.items[prev_row];
    }

    /// The rows of the menu's table, one for each entry.
    pub fn rows() -> (rows: Vec<crate::rows::MenuItem>)
        ensures
            item_rows(rows@) == menu_rows(),
    {
        let mut rows: Vec<crate::rows::MenuItem> = Vec::new();
        rows.push(
            crate::rows::MenuItem {
                name: "1. Maps".to_owned(),
                description: "Manage eBPF maps".to_owned(),
            },
        );
        rows.push(
            crate::rows::MenuItem {
                name: "2. Programs".to_owned(),
                description: "Manage eBPF programs".to_owned(),
            },
        );
        proof {
            assert(item_rows(rows@) =~= menu_rows());
        }
        rows
    }

    /// The headers of the table's columns.
    pub fn headers() -> (headers: [&'static str; 2])
        ensures
            headers@ == seq!["Name", "Description"],
    {
        ["Name", "Description"]
    }

    /// Takes a key: moves the selection, and says what the caller does next.
    pub fn press(&mut self, key: Key) -> (command: MenuCommand)
        ensures
            final(self)@ == old(self)@.after(key),
            command == old(self)@.command(key),
    {
        match decode_in_list(key) {
            Some(Intent::Quit) => MenuCommand::Quit,
            Some(Intent::Next) => {
                self.next();
                MenuCommand::Stay
            },
            Some(Intent::Previous) => {
                self.prev();
                MenuCommand::Stay
            },
            Some(Intent::Confirm) => MenuCommand::Open(self.state),
            _ => MenuCommand::Stay,
        }
    }
}

/// The menu has two entries: a move, up or down, leads to the other one, and
/// two moves lead back.
pub proof fn law_menu_moves_to_the_other_entry(menu: MenuView)
    ensures
        menu.next().state != menu.state,
        menu.prev() == menu.next(),
        menu.next().next() == menu,
        menu.prev().prev() == menu,
{
}

} // verus!
