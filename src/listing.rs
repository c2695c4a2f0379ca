//! Reference data snapshots together with a clamped selection index.

use vstd::prelude::*;

verus! {

/// The selection after moving down once: one further, but not past the
/// last item; the first item where nothing was selected.
pub open spec fn next_selection(sel: Option<usize>, len: nat) -> Option<usize> {
    if len == 0 {
        sel
    } else {
        match sel {
            Some(i) => if i + 1 < len {
                Some((i + 1) as usize)
            } else {
                Some(i)
            },
            None => Some(0),
        }
    }
}

/// The selection after moving up once: one back, but not before the first
/// item; the first item where nothing was selected.
pub open spec fn prev_selection(sel: Option<usize>, len: nat) -> Option<usize> {
    if len == 0 {
        sel
    } else {
        match sel {
            Some(i) => if i > 0 {
                Some((i - 1) as usize)
            } else {
                Some(i)
            },
            None => Some(0),
        }
    }
}

/// The selection that a fresh snapshot of `len` items starts with.
pub open spec fn initial_selection(len: nat) -> Option<usize> {
    if len > 0 {
        Some(0)
    } else {
        None
    }
}

/// A snapshot of items and the index of the selected one.
pub struct SelectableList<T> {
    items: Vec<T>,
    selected: Option<usize>,
}

impl<T> View for SelectableList<T> {
    type V = (Seq<T>, Option<usize>);

    closed spec fn view(&self) -> (Seq<T>, Option<usize>) {
        (self.items@, self.selected)
    }
}

impl<T> SelectableList<T> {
    /// The selection, if any, points at an item.
    pub open spec fn wf(&self) -> bool {
        match self@.1 {
            Some(i) => i < self@.0.len(),
            None => true,
        }
    }

    /// An empty snapshot with nothing selected.
    pub fn new() -> (l: SelectableList<T>)
        ensures
            l.wf(),
            l@.0 == Seq::<T>::empty(),
            l@.1 is None,
    {
        SelectableList { items: Vec::new(), selected: None }
    }

    /// The items of the snapshot.
    pub fn items(&self) -> (r: &Vec<T>)
        ensures
            r@ == self@.0,
    {
        &self.items
    }

    /// The index of the selected item.
    pub fn selected(&self) -> (r: Option<usize>)
        ensures
            r == self@.1,
    {
        self.selected
    }

    /// Replaces the whole snapshot; the first item, if any, becomes selected.
    pub fn replace(&mut self, items: Vec<T>)
        ensures
            final(self).wf(),
            final(self)@ == (items@, initial_selection(items@.len())),
    {
        let sel = if items.len() > 0 {
            Some(0)
        } else {
            None
        };
        self.items = items;
        self.selected = sel;
    }

    /// Moves the selection down one item, stopping at the last one.
    pub fn select_next(&mut self)
        requires
            old(self).wf(),
        ensures
            final(self).wf(),
            final(self)@ == (old(self)@.0, next_selection(old(self)@.1, old(self)@.0.len())),
    {
        let len = self.items.len();
        if len > 0 {
            self.selected = match self.selected {
                Some(i) => if i + 1 < len {
                    Some(i + 1)
                } else {
                    Some(i)
                },
                None => Some(0),
            };
        }
    }

    /// Moves the selection up one item, stopping at the first one.
    pub fn select_prev(&mut self)
        requires
            old(self).wf(),
        ensures
            final(self).wf(),
            final(self)@ == (old(self)@.0, prev_selection(old(self)@.1, old(self)@.0.len())),
    {
        let len = self.items.len();
        if len > 0 {
            self.selected = match self.selected {
                Some(i) => if i > 0 {
                    Some(i - 1)
                } else {
                    Some(i)
                },
                None => Some(0),
            };
        }
    }
}

} // verus!
