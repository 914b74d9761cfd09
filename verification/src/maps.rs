//! The list of maps.

use crate::keys::{decode_in_list, list_intent, Intent, Key};
use crate::records::MapRecord;
use crate::rows::{item_rows, row_texts, table_rows};
use crate::selection::{first_index, scroll_span, Selection, SelectionView};
use vstd::prelude::*;

verus! {

/// What the caller of a list screen does after a key.
#[derive(Clone, Copy, Debug, PartialEq, Eq, Structural)]
pub enum Command {
    /// Go on showing the screen.
    Stay,
    /// Leave.
    Quit,
    /// Read the program `prog_id` afresh and show its detail.
    Inspect { prog_id: u32 },
}

/// The list of maps as plain values.
pub struct MapsView {
    pub selection: SelectionView,
    pub items: Seq<MapRecord>,
}

impl MapsView {
    /// The screen after `key`: the selection moves on the keys that move
    /// it, and nothing else changes.
    pub open spec fn after(self, key: Key) -> MapsView {
        match list_intent(key) {
            Some(Intent::Next) => MapsView {
                selection: self.selection.next(self.items.len()),
                ..self
            },
            Some(Intent::Previous) => MapsView {
                selection: self.selection.previous(self.items.len()),
                ..self
            },
            _ => self,
        }
    }

    /// What the caller does after `key`: a map has no detail to show, so it
    /// leaves or stays.
    pub open spec fn command(self, key: Key) -> Command {
        match list_intent(key) {
            Some(Intent::Quit) => Command::Quit,
            _ => Command::Stay,
        }
    }
}

/// The list of maps and the selection in it.
#[derive(Debug)]
pub struct Maps {
    selection: Selection,
    items: Vec<MapRecord>,
}

impl View for Maps {
    type V = MapsView;

    closed spec fn view(&self) -> MapsView {
        MapsView { selection: self.selection@, items: self.items@ }
    }
}

impl Maps {
    /// The screen over the maps `items`, on the first of them.
    pub fn new(items: Vec<MapRecord>) -> (maps: Maps)
        ensures
            maps@.items == items@,
            maps@.selection == (SelectionView {
                selected: first_index(items@.len()),
                position: 0,
                span: scroll_span(items@.len()),
            }),
    {
        Maps { selection: Selection::new(items.len()), items }
    }

    /// Moves the selection down one row.
    pub fn next_row(&mut self)
        ensures
            final(self)@ == (MapsView {
                selection: old(self)@.selection.next(old(self)@.items.len()),
                ..old(self)@
            }),
    {
        self.selection.next(self.items.len());
    }

    /// Moves the selection up one row.
    pub fn previous_row(&mut self)
        ensures
            final(self)@ == (MapsView {
                selection: old(self)@.selection.previous(old(self)@.items.len()),
                ..old(self)@
            }),
    {
        self.selection.previous(self.items.len());
    }

    /// Replaces the list by the maps found by a new walk. The selection stays
    /// at its row, whatever map is there now.
    pub fn replace_items(&mut self, items: Vec<MapRecord>)
        ensures
            final(self)@ == (MapsView { items: items@, ..old(self)@ }),
    {
        self.items = items;
    }

    /// Takes a key: moves the selection, and says what the caller does next.
    pub fn press(&mut self, key: Key) -> (command: Command)
        ensures
            final(self)@ == old(self)@.after(key),
            command == old(self)@.command(key),
    {
        match decode_in_list(key) {
            Some(Intent::Quit) => Command::Quit,
            Some(Intent::Next) => {
                self.next_row();
                Command::Stay
            },
            Some(Intent::Previous) => {
                self.previous_row();
                Command::Stay
            },
            _ => Command::Stay,
        }
    }

    /// The selection.
    pub fn selection(&self) -> (selection: Selection)
        ensures
            selection@ == self@.selection,
    {
        self.selection
    }

    /// The maps of the list.
    pub fn items(&self) -> (items: &Vec<MapRecord>)
        ensures
            items@ == self@.items,
    {
        &self.items
    }

    /// The rows of the table, one for each map.
    pub fn rows(&self) -> (rows: Vec<Vec<String>>)
        ensures
            row_texts(rows@) == item_rows(self@.items),
    {
        table_rows(&self.items)
    }

    /// The headers of the table's columns.
    pub fn headers() -> (headers: [&'static str; 4])
        ensures
            headers@ == seq!["ID", "Name", "Max-Entires", "Type"],
    {
        ["ID", "Name", "Max-Entires", "Type"]
    }
}

} // verus!
