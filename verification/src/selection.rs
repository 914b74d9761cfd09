//! The selection of a row in a list: which row is selected, and how far the
//! scrollbar stands. Moving down from the last row leads to the first, moving
//! up from the first leads to the last, and an empty list has nothing to
//! move to.
//!
//! The selection knows the list only by its length. A refresh may replace the
//! list under it, so an index can point past the end of a list that has
//! shrunk; the next move brings it back inside.

use vstd::prelude::*;

verus! {

/// Height of one row, in the units of the scrollbar.
pub const ITEM_HEIGHT: usize = 4;

/// Where the scrollbar stands when row `index` is selected: the row times the
/// row height.
pub open spec fn scroll_offset(index: nat) -> nat {
    index * (ITEM_HEIGHT as nat)
}

/// The length that the scrollbar covers for a list of `len` rows: the offset
/// of the last row.
pub open spec fn scroll_span(len: nat) -> nat {
    if len == 0 {
        0
    } else {
        scroll_offset((len - 1) as nat)
    }
}

/// The row selected at first in a list of `len` rows.
pub open spec fn first_index(len: nat) -> Option<nat> {
    if len == 0 {
        None
    } else {
        Some(0)
    }
}

/// The row selected after a move down in a list of `len` rows.
pub open spec fn next_index(selected: Option<nat>, len: nat) -> Option<nat> {
    if len == 0 {
        selected
    } else {
        match selected {
            Some(i) => if i + 1 >= len {
                Some(0)
            } else {
                Some(i + 1)
            },
            None => Some(0),
        }
    }
}

/// The row selected after a move up in a list of `len` rows.
pub open spec fn previous_index(selected: Option<nat>, len: nat) -> Option<nat> {
    if len == 0 {
        selected
    } else {
        match selected {
            Some(i) => if i == 0 || i >= len {
                Some((len - 1) as nat)
            } else {
                Some((i - 1) as nat)
            },
            None => Some(0),
        }
    }
}

/// The row selected after `count` moves down.
pub open spec fn next_times(selected: Option<nat>, len: nat, count: nat) -> Option<nat>
    decreases count,
{
    if count == 0 {
        selected
    } else {
        next_index(next_times(selected, len, (count - 1) as nat), len)
    }
}

/// The row selected after `count` moves up.
pub open spec fn previous_times(selected: Option<nat>, len: nat, count: nat) -> Option<nat>
    decreases count,
{
    if count == 0 {
        selected
    } else {
        previous_index(previous_times(selected, len, (count - 1) as nat), len)
    }
}

/// `index` is a row of a list of `len` rows.
pub open spec fn in_bounds(selected: Option<nat>, len: nat) -> bool {
    selected matches Some(i) && i < len
}

/// A selection as plain numbers.
pub struct SelectionView {
    pub selected: Option<nat>,
    pub position: nat,
    pub span: nat,
}

impl SelectionView {
    /// The selection after a move down in a list of `len` rows.
    pub open spec fn next(self, len: nat) -> SelectionView {
        if len == 0 {
            self
        } else {
            SelectionView {
                selected: next_index(self.selected, len),
                position: scroll_offset(next_index(self.selected, len).unwrap()),
                span: self.span,
            }
        }
    }

    /// The selection after a move up in a list of `len` rows.
    pub open spec fn previous(self, len: nat) -> SelectionView {
        if len == 0 {
            self
        } else {
            SelectionView {
                selected: previous_index(self.selected, len),
                position: scroll_offset(previous_index(self.selected, len).unwrap()),
                span: self.span,
            }
        }
    }
}

/// The selected row of a list and the state of its scrollbar.
#[derive(Clone, Copy, Debug)]
pub struct Selection {
    selected: Option<usize>,
    position: u128,
    span: u128,
}

impl View for Selection {
    type V = SelectionView;

    closed spec fn view(&self) -> SelectionView {
        SelectionView {
            selected: match self.selected {
                Some(i) => Some(i as nat),
                None => None,
            },
            position: self.position as nat,
            span: self.span as nat,
        }
    }
}

fn offset_of(index: usize) -> (offset: u128)
    ensures
        offset == scroll_offset(index as nat),
{
    index as u128 * ITEM_HEIGHT as u128
}

impl Selection {
    /// The selection in a fresh list of `len` rows: the first row, if there
    /// is one, with the scrollbar at the top.
    pub fn new(len: usize) -> (s: Selection)
        ensures
            s@ == (SelectionView {
                selected: first_index(len as nat),
                position: 0,
                span: scroll_span(len as nat),
            }),
    {
        Selection {
            selected: if len == 0 {
                None
            } else {
                Some(0)
            },
            position: 0,
            span: if len == 0 {
                0
            } else {
                offset_of(len - 1)
            },
        }
    }

    /// The selected row.
    pub fn selected(&self) -> (i: Option<usize>)
        ensures
            match i {
                Some(i) => self@.selected == Some(i as nat),
                None => self@.selected is None,
            },
    {
        self.selected
    }

    /// Where the scrollbar stands. The number is wide enough for the last
    /// row of the longest list.
    pub fn position(&self) -> (p: u128)
        ensures
            p == self@.position,
    {
        self.position
    }

    /// The length that the scrollbar covers.
    pub fn span(&self) -> (l: u128)
        ensures
            l == self@.span,
    {
        self.span
    }

    /// Moves down one row in a list of `len` rows, from the last row to the
    /// first.
    pub fn next(&mut self, len: usize)
        ensures
            final(self)@ == old(self)@.next(len as nat),
    {
        if len == 0 {
            return ;
        }
        let i: usize = match self.selected {
            Some(i) => if i >= len - 1 {
                0
            } else {
                i + 1
            },
            None => 0,
        };
        self.selected = Some(i);
        self.position = offset_of(i);
    }

    /// Moves up one row in a list of `len` rows, from the first row to the
    /// last.
    pub fn previous(&mut self, len: usize)
        ensures
            final(self)@ == old(self)@.previous(len as nat),
    {
        if len == 0 {
            return ;
        }
        let i: usize = match self.selected {
            Some(i) => if i == 0 || i >= len {
                len - 1
            } else {
                i - 1
            },
            None => 0,
        };
        self.selected = Some(i);
        self.position = offset_of(i);
    }
}

/// A move in a list that has rows ends on one of its rows, wherever it began;
/// a move in an empty list changes nothing.
pub proof fn law_moves_stay_in_bounds(selected: Option<nat>, len: nat)
    ensures
        len > 0 ==> in_bounds(next_index(selected, len), len),
        len > 0 ==> in_bounds(previous_index(selected, len), len),
        len == 0 ==> next_index(selected, len) == selected,
        len == 0 ==> previous_index(selected, len) == selected,
{
}

/// A move from a row of the list is one step round it: down to the row after
/// it, up to the row before it, counted round the list.
pub proof fn law_moves_step_round(start: nat, len: nat)
    requires
        start < len,
    ensures
        next_index(Some(start), len) == Some(((start + 1) % len) as nat),
        previous_index(Some(start), len) == Some(((start + len - 1) % (len as int)) as nat),
{
    vstd::arithmetic::div_mod::lemma_small_mod(start, len);
    lemma_step_on(start as int, len as int);
    lemma_step_back(start as int, len as int);
    vstd::arithmetic::div_mod::lemma_mod_add_multiples_vanish(start - 1, len as int);
}

/// `count` moves down from row `start` end on the row `count` further on,
/// counted round the list.
pub proof fn lemma_next_times(start: nat, len: nat, count: nat)
    requires
        start < len,
    ensures
        next_times(Some(start), len, count) == Some(((start + count) % len) as nat),
    decreases count,
{
    if count == 0 {
        vstd::arithmetic::div_mod::lemma_small_mod(start, len);
    } else {
        let before = (count - 1) as nat;
        lemma_next_times(start, len, before);
        vstd::arithmetic::div_mod::lemma_mod_bound((start + before) as int, len as int);
        lemma_step_on((start + before) as int, len as int);
    }
}

proof fn lemma_step_on(x: int, m: int)
    requires
        0 < m,
    ensures
        (x + 1) % m == if x % m == m - 1 {
            0
        } else {
            x % m + 1
        },
{
    vstd::arithmetic::div_mod::lemma_fundamental_div_mod(x, m);
    let q = x / m;
    let r = x % m;
    if r == m - 1 {
        assert(x + 1 == (q + 1) * m + 0) by (nonlinear_arith)
            requires
                x == m * q + r,
                r == m - 1,
        ;
        vstd::arithmetic::div_mod::lemma_fundamental_div_mod_converse(x + 1, m, q + 1, 0);
    } else {
        assert(x + 1 == q * m + (r + 1)) by (nonlinear_arith)
            requires
                x == m * q + r,
        ;
        vstd::arithmetic::div_mod::lemma_fundamental_div_mod_converse(x + 1, m, q, r + 1);
    }
}

/// As many moves down as the list has rows lead back to the row they began
/// on.
pub proof fn law_next_comes_round(start: nat, len: nat)
    requires
        start < len,
    ensures
        next_times(Some(start), len, len) == Some(start),
{
    lemma_next_times(start, len, len);
    vstd::arithmetic::div_mod::lemma_mod_add_multiples_vanish(start as int, len as int);
    vstd::arithmetic::div_mod::lemma_small_mod(start, len);
}

/// `count` moves up from row `start` end on the row `count` before it,
/// counted round the list.
pub proof fn lemma_previous_times(start: nat, len: nat, count: nat)
    requires
        start < len,
    ensures
        previous_times(Some(start), len, count) == Some(((start - count) % (len as int)) as nat),
    decreases count,
{
    if count == 0 {
        vstd::arithmetic::div_mod::lemma_small_mod(start, len);
    } else {
        let before = (count - 1) as nat;
        lemma_previous_times(start, len, before);
        vstd::arithmetic::div_mod::lemma_mod_bound(start - before, len as int);
        lemma_step_back(start - before, len as int);
    }
}

proof fn lemma_step_back(x: int, m: int)
    requires
        0 < m,
    ensures
        (x - 1) % m == if x % m == 0 {
            m - 1
        } else {
            x % m - 1
        },
{
    vstd::arithmetic::div_mod::lemma_fundamental_div_mod(x, m);
    let q = x / m;
    let r = x % m;
    if r == 0 {
        assert(x - 1 == (q - 1) * m + (m - 1)) by (nonlinear_arith)
            requires
                x == m * q + r,
                r == 0,
        ;
        vstd::arithmetic::div_mod::lemma_fundamental_div_mod_converse(x - 1, m, q - 1, m - 1);
    } else {
        assert(x - 1 == q * m + (r - 1)) by (nonlinear_arith)
            requires
                x == m * q + r,
        ;
        vstd::arithmetic::div_mod::lemma_fundamental_div_mod_converse(x - 1, m, q, r - 1);
    }
}

/// As many moves up as the list has rows lead back to the row they began on.
pub proof fn law_previous_comes_round(start: nat, len: nat)
    requires
        start < len,
    ensures
        previous_times(Some(start), len, len) == Some(start),
{
    lemma_previous_times(start, len, len);
    vstd::arithmetic::div_mod::lemma_fundamental_div_mod_converse(
        start - len,
        len as int,
        -1,
        start as int,
    );
}

} // verus!
