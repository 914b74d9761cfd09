//! Table rows: what a list shows of each of its items.

use crate::format::format_tag;
use crate::labels::{bpf_map_type_to_str, bpf_prog_type_to_str, map_type_label, prog_type_label};
use crate::names::{name_string, name_text};
use crate::records::{MapRecord, ProgramRecord};
use crate::text::{decimal, decimal_string, tag_hex};
use vstd::prelude::*;

verus! {

/// The cells of `cells` as text, in their order.
pub open spec fn cell_texts(cells: Seq<String>) -> Seq<Seq<char>> {
    cells.map_values(|cell: String| cell@)
}

/// The rows of `rows` as text, in their order.
pub open spec fn row_texts(rows: Seq<Vec<String>>) -> Seq<Seq<Seq<char>>> {
    rows.map_values(|row: Vec<String>| cell_texts(row@))
}

/// An item that a table can show: it has an id and a text for each column.
pub trait TableRow {
    /// The id of the item.
    spec fn row_id(&self) -> u32;

    /// The texts of the item's cells, one for each column.
    spec fn row_cells(&self) -> Seq<Seq<char>>;

    /// The id of the item.
    fn id(&self) -> (id: u32)
        ensures
            id == self.row_id(),
    ;

    /// The item's cells, one for each column.
    fn cells(&self) -> (cells: Vec<String>)
        ensures
            cell_texts(cells@) == self.row_cells(),
    ;
}

/// An entry of the main menu as a row: its name and what it leads to.
#[derive(Debug)]
pub struct MenuItem {
    pub name: String,
    pub description: String,
}

impl TableRow for MenuItem {
    /// A menu entry stands for no kernel object: its id is zero.
    open spec fn row_id(&self) -> u32 {
        0
    }

    open spec fn row_cells(&self) -> Seq<Seq<char>> {
        seq![self.name@, self.description@]
    }

    fn id(&self) -> (id: u32) {
        0
    }

    fn cells(&self) -> (cells: Vec<String>) {
        let mut cells: Vec<String> = Vec::new();
        cells.push(self.name.clone());
        cells.push(self.description.clone());
        proof {
            assert(cell_texts(cells@) =~= self.row_cells());
        }
        cells
    }
}

impl TableRow for MapRecord {
    open spec fn row_id(&self) -> u32 {
        self.id
    }

    /// Id, name, capacity and type.
    open spec fn row_cells(&self) -> Seq<Seq<char>> {
        seq![
            decimal(self.id as nat),
            name_text(self.name@),
            decimal(self.max_entries as nat),
            map_type_label(self.type_),
        ]
    }

    fn id(&self) -> (id: u32) {
        self.id
    }

    fn cells(&self) -> (cells: Vec<String>) {
        let mut cells: Vec<String> = Vec::new();
        cells.push(decimal_string(self.id as u64));
        cells.push(name_string(self.name));
        cells.push(decimal_string(self.max_entries as u64));
        cells.push(bpf_map_type_to_str(self.type_).to_owned());
        proof {
            assert(cell_texts(cells@) =~= self.row_cells());
        }
        cells
    }
}

impl TableRow for ProgramRecord {
    open spec fn row_id(&self) -> u32 {
        self.id
    }

    /// Id, name, content tag and type.
    open spec fn row_cells(&self) -> Seq<Seq<char>> {
        seq![
            decimal(self.id as nat),
            name_text(self.name@),
            tag_hex(self.tag@),
            prog_type_label(self.type_),
        ]
    }

    fn id(&self) -> (id: u32) {
        self.id
    }

    fn cells(&self) -> (cells: Vec<String>) {
        let mut cells: Vec<String> = Vec::new();
        cells.push(decimal_string(self.id as u64));
        cells.push(name_string(self.name));
        cells.push(format_tag(self.tag));
        cells.push(bpf_prog_type_to_str(self.type_).to_owned());
        proof {
            assert(cell_texts(cells@) =~= self.row_cells());
        }
        cells
    }
}

/// The cells of the items of `items`, in the order of the list.
pub open spec fn item_rows<T: TableRow>(items: Seq<T>) -> Seq<Seq<Seq<char>>> {
    items.map_values(|item: T| item.row_cells())
}

/// The rows of `items`, one for each item, in the order of the list.
pub fn table_rows<T: TableRow>(items: &Vec<T>) -> (rows: Vec<Vec<String>>)
    ensures
        row_texts(rows@) == item_rows(items@),
{
    let mut rows: Vec<Vec<String>> = Vec::new();
    let mut i: usize = 0;
    while i < items.len()
        invariant
            i <= items.len(),
            rows@.len() == i,
            forall|j: int| 0 <= j < i ==> cell_texts(#[trigger] rows@[j]@) == items@[j].row_cells(),
        decreases items.len() - i,
    {
        rows.push(items[i].cells());
        i += 1;
    }
    proof {
        assert(row_texts(rows@) =~= item_rows(items@));
    }
    rows
}

} // verus!
