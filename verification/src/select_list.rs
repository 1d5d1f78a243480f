//! The wraparound list-selection component shared by the request list,
//! the method picker and the collection picker: an ordered sequence of
//! items, an optional selection index that wraps at both ends, and a
//! visibility flag for use as a side panel or modal overlay.

use vstd::prelude::*;

verus! {

/// The mathematical state of one selectable list.
#[verifier::ext_equal]
pub struct ListView<T> {
    pub items: Seq<T>,
    pub selected: Option<int>,
    pub visible: bool,
}

impl<T> ListView<T> {
    /// The selection, when there is one, indexes an item.
    pub open spec fn wf(self) -> bool {
        match self.selected {
            Some(i) => 0 <= i < self.items.len(),
            None => true,
        }
    }
}

/// Where `next` moves the selection: circularly forward, onto the first
/// item when nothing is selected, nowhere on an empty list.
pub open spec fn next_index(sel: Option<int>, len: int) -> Option<int> {
    if len == 0 {
        sel
    } else {
        match sel {
            None => Some(0),
            Some(i) => Some(if i >= len - 1 { 0 } else { i + 1 }),
        }
    }
}

/// Where `previous` moves the selection: circularly backward, onto the
/// first item when nothing is selected, nowhere on an empty list.
pub open spec fn previous_index(sel: Option<int>, len: int) -> Option<int> {
    if len == 0 {
        sel
    } else {
        match sel {
            None => Some(0),
            Some(i) => Some(if i == 0 { len - 1 } else { i - 1 }),
        }
    }
}

/// The selection after `k` repeated `next` steps.
pub open spec fn iter_next(sel: Option<int>, len: int, k: nat) -> Option<int>
    decreases k,
{
    if k == 0 {
        sel
    } else {
        next_index(iter_next(sel, len, (k - 1) as nat), len)
    }
}

proof fn lemma_iter_next_linear(i: int, len: int, k: nat)
    requires
        0 < len,
        0 <= i < len,
        k <= len,
    ensures
        iter_next(Some(i), len, k) == Some(
            if i + k < len {
                i + k
            } else {
                i + k - len
            },
        ),
    decreases k,
{
    if k > 0 {
        lemma_iter_next_linear(i, len, (k - 1) as nat);
    }
}

/// Law: on a non-empty list, repeated `next` keeps the selection inside
/// `[0, len)`.
pub proof fn lemma_next_stays_in_range(i: int, len: int, k: nat)
    requires
        0 < len,
        0 <= i < len,
    ensures
        match iter_next(Some(i), len, k) {
            Some(j) => 0 <= j < len,
            None => false,
        },
    decreases k,
{
    if k > 0 {
        lemma_next_stays_in_range(i, len, (k - 1) as nat);
    }
}

/// Law: on a non-empty list of length `len`, calling `next` exactly
/// `len` times returns the selection to where it started.
pub proof fn lemma_next_cycles(i: int, len: int)
    requires
        0 < len,
        0 <= i < len,
    ensures
        iter_next(Some(i), len, len as nat) == Some(i),
{
    lemma_iter_next_linear(i, len, len as nat);
}

/// An ordered list of items with an optional wraparound selection and a
/// visibility flag.
pub struct SelectableList<T> {
    items: Vec<T>,
    selected: Option<usize>,
    visible: bool,
}

impl<T> View for SelectableList<T> {
    type V = ListView<T>;

    closed spec fn view(&self) -> ListView<T> {
        ListView {
            items: self.items@,
            selected: match self.selected {
                Some(i) => Some(i as int),
                None => None,
            },
            visible: self.visible,
        }
    }
}

impl<T> SelectableList<T> {
    /// A fresh, hidden list with nothing selected.
    pub fn new(items: Vec<T>) -> (r: SelectableList<T>)
        ensures
            r@.items == items@,
            r@.selected is None,
            !r@.visible,
            r@.wf(),
    {
        SelectableList { items, selected: None, visible: false }
    }

    /// Replaces the contents and resets the selection to none.
    pub fn set_items(&mut self, items: Vec<T>)
        ensures
            final(self)@.items == items@,
            final(self)@.selected is None,
            final(self)@.visible == old(self)@.visible,
            final(self)@.wf(),
    {
        self.items = items;
        self.selected = None;
    }

    pub fn len(&self) -> (r: usize)
        ensures
            r == self@.items.len(),
    {
        self.items.len()
    }

    /// The items, for a drawing layer to read.
    pub fn items(&self) -> (r: &Vec<T>)
        ensures
            r@ == self@.items,
    {
        &self.items
    }

    pub fn selected_index(&self) -> (r: Option<usize>)
        ensures
            match r {
                Some(i) => self@.selected == Some(i as int),
                None => self@.selected is None,
            },
    {
        self.selected
    }

    /// The selected item, or none when nothing is selected.
    pub fn selected(&self) -> (r: Option<&T>)
        requires
            self@.wf(),
        ensures
            match r {
                Some(t) => self@.selected matches Some(i) && *t == self@.items[i],
                None => self@.selected is None,
            },
    {
        match self.selected {
            Some(i) => Some(&self.items[i]),
            None => None,
        }
    }

    /// Forces the selection onto item `i`.
    pub fn select(&mut self, i: usize)
        requires
            i < old(self)@.items.len(),
        ensures
            final(self)@.items == old(self)@.items,
            final(self)@.visible == old(self)@.visible,
            final(self)@.selected == Some(i as int),
            final(self)@.wf(),
    {
        self.selected = Some(i);
    }

    /// Moves the selection circularly forward; a no-op on an empty
    /// list.
    pub fn next(&mut self)
        requires
            old(self)@.wf(),
        ensures
            final(self)@.items == old(self)@.items,
            final(self)@.visible == old(self)@.visible,
            final(self)@.selected == next_index(old(self)@.selected, old(self)@.items.len() as int),
            final(self)@.wf(),
    {
        if self.items.len() == 0 {
            return ;
        }
        let i: usize = match self.selected {
            Some(i) => if i >= self.items.len() - 1 {
                0
            } else {
                i + 1
            },
            None => 0,
        };
        self.selected = Some(i);
    }

    /// Moves the selection circularly backward; a no-op on an empty
    /// list.
    pub fn previous(&mut self)
        requires
            old(self)@.wf(),
        ensures
            final(self)@.items == old(self)@.items,
            final(self)@.visible == old(self)@.visible,
            final(self)@.selected == previous_index(
                old(self)@.selected,
                old(self)@.items.len() as int,
            ),
            final(self)@.wf(),
    {
        if self.items.len() == 0 {
            return ;
        }
        let i: usize = match self.selected {
            Some(i) => if i == 0 {
                self.items.len() - 1
            } else {
                i - 1
            },
            None => 0,
        };
        self.selected = Some(i);
    }

    pub fn visible(&self) -> (r: bool)
        ensures
            r == self@.visible,
    {
        self.visible
    }

    /// Shows or hides the component, independent of the selection.
    pub fn set_visible(&mut self, visible: bool)
        ensures
            final(self)@.items == old(self)@.items,
            final(self)@.selected == old(self)@.selected,
            final(self)@.visible == visible,
    {
        self.visible = visible;
    }

    /// Flips the visibility flag, independent of the selection.
    pub fn toggle_visible(&mut self)
        ensures
            final(self)@.items == old(self)@.items,
            final(self)@.selected == old(self)@.selected,
            final(self)@.visible == !old(self)@.visible,
    {
        self.visible = !self.visible;
    }
}

} // verus!
