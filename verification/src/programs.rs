//! The list of programs, and the detail of one of them.
//!
//! The detail is what a fresh read of the program gave when it was opened,
//! not the record of the list: the record, the ids of its maps and the time
//! stamp of its load time are kept from that read, and the detail stays as
//! it is while it is shown. A program that has gone when it is read opens no
//! detail. The way to another program's detail leads back through the list.

use crate::detail::{detail_text, program_detail, section_texts, Section};
use crate::keys::{decode_in_detail, decode_in_list, detail_intent, list_intent, Intent, Key};
use crate::maps::Command;
use crate::records::ProgramRecord;
use crate::rows::{item_rows, row_texts, table_rows};
use crate::selection::{first_index, scroll_span, Selection, SelectionView};
use vstd::prelude::*;

verus! {

/// The program of a detail screen, as it was read when the screen was opened:
/// its id, its record, the ids of its maps and the time stamp of its load
/// time.
#[derive(Debug)]
pub struct ProgramInfo {
    pub prog_id: u32,
    pub item: ProgramRecord,
    pub map_ids: Vec<u32>,
    pub loaded_at: String,
}

/// What the programs screen shows.
#[derive(Debug)]
pub enum Screen {
    /// The list.
    ProgramsList,
    /// The detail of one program.
    ProgramInfo(ProgramInfo),
}

/// The program of a detail screen as plain values.
pub struct ProgramInfoView {
    pub prog_id: u32,
    pub item: ProgramRecord,
    pub map_ids: Seq<u32>,
    pub loaded_at: Seq<char>,
}

/// What the programs screen shows, as plain values.
pub enum ScreenView {
    ProgramsList,
    ProgramInfo(ProgramInfoView),
}

impl View for ProgramInfo {
    type V = ProgramInfoView;

    open spec fn view(&self) -> ProgramInfoView {
        ProgramInfoView {
            prog_id: self.prog_id,
            item: self.item,
            map_ids: self.map_ids@,
            loaded_at: self.loaded_at@,
        }
    }
}

impl View for Screen {
    type V = ScreenView;

    open spec fn view(&self) -> ScreenView {
        match self {
            Screen::ProgramsList => ScreenView::ProgramsList,
            Screen::ProgramInfo(info) => ScreenView::ProgramInfo(info@),
        }
    }
}

/// The programs screen as plain values.
pub struct ProgramsView {
    pub selection: SelectionView,
    pub items: Seq<ProgramRecord>,
    pub screen: ScreenView,
}

impl ProgramsView {
    /// The id of the program in the selected row, if the selection is on a
    /// row of the list.
    pub open spec fn selected_id(self) -> Option<u32> {
        match self.selection.selected {
            Some(i) if i < self.items.len() => Some(self.items[i as int].id),
            _ => None,
        }
    }

    /// The screen after `key`. In the list the selection moves on the keys
    /// that move it; the detail goes back to the list on the keys that leave
    /// it, and the selection is then where it was.
    pub open spec fn after(self, key: Key) -> ProgramsView {
        match self.screen {
            ScreenView::ProgramsList => match list_intent(key) {
                Some(Intent::Next) => ProgramsView {
                    selection: self.selection.next(self.items.len()),
                    ..self
                },
                Some(Intent::Previous) => ProgramsView {
                    selection: self.selection.previous(self.items.len()),
                    ..self
                },
                _ => self,
            },
            ScreenView::ProgramInfo(_) => match detail_intent(key) {
                Some(Intent::Back) => ProgramsView { screen: ScreenView::ProgramsList, ..self },
                _ => self,
            },
        }
    }

    /// What the caller does after `key`. To confirm in the list, on a row of
    /// it, asks for a fresh read of that row's program.
    pub open spec fn command(self, key: Key) -> Command {
        match self.screen {
            ScreenView::ProgramsList => match list_intent(key) {
                Some(Intent::Quit) => Command::Quit,
                Some(Intent::Confirm) => match self.selected_id() {
                    Some(prog_id) => Command::Inspect { prog_id },
                    None => Command::Stay,
                },
                _ => Command::Stay,
            },
            ScreenView::ProgramInfo(_) => Command::Stay,
        }
    }

    /// The screen after the read of program `prog_id` gave `outcome` and the
    /// ids `map_ids` of its maps, with `loaded_at` as the time stamp of its
    /// load time. From the list, a record that was read opens the detail of
    /// that program. A program that had gone leaves the list on screen, and a
    /// detail that is shown stays.
    pub open spec fn showing(
        self,
        prog_id: u32,
        outcome: Option<ProgramRecord>,
        map_ids: Seq<u32>,
        loaded_at: Seq<char>,
    ) -> ProgramsView {
        match (self.screen, outcome) {
            (ScreenView::ProgramsList, Some(item)) => ProgramsView {
                screen: ScreenView::ProgramInfo(
                    ProgramInfoView { prog_id, item, map_ids, loaded_at },
                ),
                ..self
            },
            _ => self,
        }
    }
}

/// The list of programs, the selection in it, and what is on screen.
#[derive(Debug)]
pub struct Programs {
    selection: Selection,
    items: Vec<ProgramRecord>,
    screen: Screen,
}

impl View for Programs {
    type V = ProgramsView;

    closed spec fn view(&self) -> ProgramsView {
        ProgramsView { selection: self.selection@, items: self.items@, screen: self.screen@ }
    }
}

impl Programs {
    /// The screen over the programs `items`: the list, on its first row.
    pub fn new(items: Vec<ProgramRecord>) -> (programs: Programs)
        ensures
            programs@.items == items@,
            programs@.screen is ProgramsList,
            programs@.selection == (SelectionView {
                selected: first_index(items@.len()),
                position: 0,
                span: scroll_span(items@.len()),
            }),
    {
        Programs { selection: Selection::new(items.len()), items, screen: Screen::ProgramsList }
    }

    /// Moves the selection down one row.
    pub fn next_row(&mut self)
        ensures
            final(self)@ == (ProgramsView {
                selection: old(self)@.selection.next(old(self)@.items.len()),
                ..old(self)@
            }),
    {
        self.selection.next(self.items.len());
    }

    /// Moves the selection up one row.
    pub fn previous_row(&mut self)
        ensures
            final(self)@ == (ProgramsView {
                selection: old(self)@.selection.previous(old(self)@.items.len()),
                ..old(self)@
            }),
    {
        self.selection.previous(self.items.len());
    }

    /// Replaces the list by the programs found by a new walk. The selection
    /// stays at its row, whatever program is there now, and a detail that is
    /// shown stays as it is.
    pub fn replace_items(&mut self, items: Vec<ProgramRecord>)
        ensures
            final(self)@ == (ProgramsView { items: items@, ..old(self)@ }),
    {
        self.items = items;
    }

    fn selected_id(&self) -> (id: Option<u32>)
        ensures
            id == self@.selected_id(),
    {
        match self.selection.selected() {
            Some(i) => if i < self.items.len() {
                Some(self.items[i].id)
            } else {
                None
            },
            None => None,
        }
    }

    /// Takes a key: moves the selection or leaves the detail, and says what
    /// the caller does next.
    pub fn press(&mut self, key: Key) -> (command: Command)
        ensures
            final(self)@ == old(self)@.after(key),
            command == old(self)@.command(key),
    {
        if self.in_detail() {
            match decode_in_detail(key) {
                Some(Intent::Back) => {
                    self.screen = Screen::ProgramsList;
                    Command::Stay
                },
                _ => Command::Stay,
            }
        } else {
            match decode_in_list(key) {
                Some(Intent::Quit) => Command::Quit,
                Some(Intent::Next) => {
                    self.next_row();
                    Command::Stay
                },
                Some(Intent::Previous) => {
                    self.previous_row();
                    Command::Stay
                },
                Some(Intent::Confirm) => match self.selected_id() {
                    Some(prog_id) => Command::Inspect { prog_id },
                    None => Command::Stay,
                },
                _ => Command::Stay,
            }
        }
    }

    /// A detail is on screen.
    pub fn in_detail(&self) -> (yes: bool)
        ensures
            yes == (self@.screen is ProgramInfo),
    {
        match &self.screen {
            Screen::ProgramsList => false,
            Screen::ProgramInfo(_) => true,
        }
    }

    /// Takes what the fresh read of program `prog_id` gave: its record, if
    /// the program was still there, the ids of its maps, and the time stamp
    /// of its load time. Opens the detail of the program from the list, if
    /// there is a record.
    pub fn show_stamped(
        &mut self,
        prog_id: u32,
        outcome: Option<ProgramRecord>,
        map_ids: Vec<u32>,
        loaded_at: String,
    )
        ensures
            final(self)@ == old(self)@.showing(prog_id, outcome, map_ids@, loaded_at@),
    {
        if self.in_detail() {
            return ;
        }
        match outcome {
            Some(item) => {
                let info = ProgramInfo { prog_id, item, map_ids, loaded_at };
                self.screen = Screen::ProgramInfo(info);
            },
            None => {},
        }
    }

    /// The selection.
    pub fn selection(&self) -> (selection: Selection)
        ensures
            selection@ == self@.selection,
    {
        self.selection
    }

    /// The programs of the list.
    pub fn items(&self) -> (items: &Vec<ProgramRecord>)
        ensures
            items@ == self@.items,
    {
        &self.items
    }

    /// What is on screen.
    pub fn screen(&self) -> (screen: &Screen)
        ensures
            screen@ == self@.screen,
    {
        &self.screen
    }

    /// The rows of the table, one for each program.
    pub fn rows(&self) -> (rows: Vec<Vec<String>>)
        ensures
            row_texts(rows@) == item_rows(self@.items),
    {
        table_rows(&self.items)
    }

    /// The headers of the table's columns.
    pub fn headers() -> (headers: [&'static str; 4])
        ensures
            headers@ == seq!["ID", "Name", "Tag", "Type"],
    {
        ["ID", "Name", "Tag", "Type"]
    }

    /// The sections of the detail on screen: the fields of the record that
    /// was read when the detail was opened, with the map ids and the time
    /// stamp kept from then. `None` while the list is on screen.
    pub fn detail(&self) -> (sections: Option<Vec<Section>>)
        ensures
            match self@.screen {
                ScreenView::ProgramsList => sections is None,
                ScreenView::ProgramInfo(info) => sections matches Some(sections) && section_texts(
                    sections@,
                ) == detail_text(info.item, info.loaded_at, info.map_ids),
            },
    {
        match &self.screen {
            Screen::ProgramsList => None,
            Screen::ProgramInfo(info) => Some(
                program_detail(&info.item, info.loaded_at.clone(), &info.map_ids),
            ),
        }
    }
}

} // verus!
