//! A reusable cursor-over-ordered-sequence abstraction with saturating
//! upward navigation and wrapping downward navigation.

use vstd::prelude::*;

verus! {

/// Cursor position after one upward move: saturates at the first item,
/// and is a no-op on an empty list (no cursor).
pub open spec fn up_cursor(c: Option<usize>) -> Option<usize> {
    match c {
        Some(i) => if i == 0 {
            Some(0usize)
        } else {
            Some((i - 1) as usize)
        },
        None => None,
    }
}

/// Cursor position after one downward move over a list of `n` items:
/// wraps to the first item past the last, and is a no-op on an empty list.
pub open spec fn down_cursor(c: Option<usize>, n: nat) -> Option<usize> {
    match c {
        Some(i) => if i + 1 < n {
            Some((i + 1) as usize)
        } else {
            Some(0usize)
        },
        None => None,
    }
}

/// An ordered sequence of entries with an optional highlight cursor.
/// Insertion order is display order.
pub struct SelectionList {
    pub items: Vec<String>,
    pub cursor: Option<usize>,
}

impl SelectionList {
    /// The cursor is present exactly when the list is non-empty, and then
    /// points at a valid index.
    pub open spec fn wf(&self) -> bool {
        match self.cursor {
            Some(i) => 0 < self.items@.len() && (i as int) < self.items@.len(),
            None => self.items@.len() == 0,
        }
    }

    /// An empty list with no cursor.
    pub fn new() -> (r: SelectionList)
        ensures
            r.wf(),
            r.items@.len() == 0,
            r.cursor is None,
    {
        SelectionList { items: Vec::new(), cursor: None }
    }

    /// Move the cursor one step toward the start; saturates at the first
    /// item and does nothing on an empty list.
    pub fn move_up(&mut self)
        requires
            old(self).wf(),
        ensures
            final(self).wf(),
            final(self).items == old(self).items,
            final(self).cursor == up_cursor(old(self).cursor),
    {
        match self.cursor {
            Some(i) => {
                if i > 0 {
                    self.cursor = Some(i - 1);
                }
            },
            None => {},
        }
    }

    /// Move the cursor one step toward the end; wraps to the first item
    /// past the last and does nothing on an empty list.
    pub fn move_down(&mut self)
        requires
            old(self).wf(),
        ensures
            final(self).wf(),
            final(self).items == old(self).items,
            final(self).cursor == down_cursor(old(self).cursor, old(self).items@.len()),
    {
        match self.cursor {
            Some(i) => {
                if i < self.items.len() - 1 {
                    self.cursor = Some(i + 1);
                } else {
                    self.cursor = Some(0);
                }
            },
            None => {},
        }
    }

    /// The entry under the cursor, if any.
    pub fn select(&self) -> (r: Option<String>)
        requires
            self.wf(),
        ensures
            (self.cursor matches Some(i) ==> r == Some(self.items@[i as int])),
            self.cursor is None ==> r is None,
    {
        match self.cursor {
            Some(i) => Some(self.items[i].clone()),
            None => None,
        }
    }

    /// Runtime check of `wf`, for unverified callers that must establish
    /// it before calling operations that require it.
    pub fn check_wf(&self) -> (r: bool)
        ensures
            r == self.wf(),
    {
        match self.cursor {
            Some(i) => self.items.len() > 0 && i < self.items.len(),
            None => self.items.len() == 0,
        }
    }

    /// Install a fresh sequence of entries; the cursor is reset to the
    /// first item, or cleared when the new sequence is empty.
    pub fn replace(&mut self, new_items: Vec<String>)
        ensures
            final(self).wf(),
            final(self).items == new_items,
            final(self).cursor == (if new_items@.len() > 0 {
                Some(0usize)
            } else {
                None::<usize>
            }),
    {
        let non_empty = new_items.len() > 0;
        self.items = new_items;
        self.cursor = if non_empty {
            Some(0)
        } else {
            None
        };
    }
}

/// The cursor after `k` repeated upward moves.
pub open spec fn up_cursor_iter(c: Option<usize>, k: nat) -> Option<usize>
    decreases k,
{
    if k == 0 {
        c
    } else {
        up_cursor(up_cursor_iter(c, (k - 1) as nat))
    }
}

/// Saturation law: any number of repeated upward moves from the first
/// item keeps the cursor on the first item — it never wraps below the
/// start.
pub proof fn lemma_move_up_saturates(k: nat)
    ensures
        up_cursor_iter(Some(0usize), k) == Some(0usize),
    decreases k,
{
    if k > 0 {
        lemma_move_up_saturates((k - 1) as nat);
    }
}

/// Wraparound law: one downward move from the last of `n` items places the
/// cursor back on the first item.
pub proof fn lemma_move_down_wraps(n: usize)
    requires
        n > 0,
    ensures
        down_cursor(Some((n - 1) as usize), n as nat) == Some(0usize),
{
}

} // verus!
