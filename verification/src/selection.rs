//! The highlighted position over an immutable, ordered entry list.

use vstd::prelude::*;

verus! {

/// The index `move_next` yields from `idx` over a list of `len` entries:
/// advance by one, clamped to the last index; with nothing selected, the
/// first entry becomes selected.
pub open spec fn next_idx(idx: Option<usize>, len: usize) -> Option<usize> {
    match idx {
        None => Some(0usize),
        Some(i) => if i + 1 < len {
            Some((i + 1) as usize)
        } else {
            Some(i)
        },
    }
}

/// The index `move_prev` yields from `idx`: back one, clamped to the first
/// index; with nothing selected, nothing becomes selected.
pub open spec fn prev_idx(idx: Option<usize>) -> Option<usize> {
    match idx {
        None => None,
        Some(i) => if i > 0 {
            Some((i - 1) as usize)
        } else {
            Some(0usize)
        },
    }
}

/// Which entry of the list is highlighted, if any. The list itself is
/// immutable for the life of the session; the selection only remembers its
/// length.
pub struct Selection {
    idx: Option<usize>,
    len: usize,
}

impl Selection {
    /// The highlighted index, if any.
    pub closed spec fn idx(self) -> Option<usize> {
        self.idx
    }

    /// The length of the entry list this selection ranges over.
    pub closed spec fn len(self) -> usize {
        self.len
    }

    /// A selected index always lies inside the list.
    pub open spec fn wf(self) -> bool {
        self.idx() matches Some(i) ==> i < self.len()
    }

    /// A fresh selection over a list of `len` entries, with nothing
    /// highlighted.
    pub fn new(len: usize) -> (s: Selection)
        ensures
            s.wf(),
            s.len() == len,
            s.idx() is None,
    {
        Selection { idx: None, len }
    }

    /// The highlighted index, if any.
    pub fn selected(&self) -> (r: Option<usize>)
        ensures
            r == self.idx(),
    {
        self.idx
    }

    /// Advance the highlight by one, clamped to the last entry; select the
    /// first entry if nothing was highlighted.
    pub fn move_next(&mut self)
        requires
            old(self).wf(),
            old(self).len() > 0,
        ensures
            final(self).wf(),
            final(self).len() == old(self).len(),
            final(self).idx() == next_idx(old(self).idx(), old(self).len()),
    {
        match self.idx {
            None => {
                self.idx = Some(0);
            }
            Some(i) => {
                if i + 1 < self.len {
                    self.idx = Some(i + 1);
                }
            }
        }
    }

    /// Move the highlight back by one, clamped to the first entry; do
    /// nothing if nothing was highlighted.
    pub fn move_prev(&mut self)
        requires
            old(self).wf(),
        ensures
            final(self).wf(),
            final(self).len() == old(self).len(),
            final(self).idx() == prev_idx(old(self).idx()),
    {
        match self.idx {
            None => {}
            Some(i) => {
                if i > 0 {
                    self.idx = Some(i - 1);
                }
            }
        }
    }

    /// Highlight the first entry, whatever was highlighted before.
    pub fn move_first(&mut self)
        requires
            old(self).wf(),
            old(self).len() > 0,
        ensures
            final(self).wf(),
            final(self).len() == old(self).len(),
            final(self).idx() == Some(0usize),
    {
        self.idx = Some(0);
    }

    /// Highlight the last entry, whatever was highlighted before.
    pub fn move_last(&mut self)
        requires
            old(self).wf(),
            old(self).len() > 0,
        ensures
            final(self).wf(),
            final(self).len() == old(self).len(),
            final(self).idx() == Some((old(self).len() - 1) as usize),
    {
        self.idx = Some(self.len - 1);
    }

    /// Clear the highlight.
    pub fn unselect(&mut self)
        requires
            old(self).wf(),
        ensures
            final(self).wf(),
            final(self).len() == old(self).len(),
            final(self).idx() is None,
    {
        self.idx = None;
    }
}

/// Round-trip law: `move_next` then `move_prev` returns to the starting
/// index, provided the start was not the last entry of a list with more than
/// one entry (there `move_next` stays put and `move_prev` then steps back).
/// From no selection the pair lands on the first entry, not on no selection.
pub proof fn lemma_next_then_prev_round_trip(idx: Option<usize>, len: usize)
    requires
        len > 0,
        idx matches Some(i) ==> i < len && (i + 1 < len || len == 1),
    ensures
        idx matches Some(i) ==> prev_idx(next_idx(idx, len)) == Some(i),
        idx is None ==> prev_idx(next_idx(idx, len)) == Some(0usize),
{
}

} // verus!
