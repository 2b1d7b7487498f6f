//! Cursor + scroll window over a list of `count` rows.
//!
//! Owns two invariants: the selection stays inside the list
//! (`selected < count`, or `0` for an empty list), and every gesture that
//! moves the selection, resizes the list or resizes the viewport scrolls the
//! window so the selection is on screen.

use vstd::prelude::*;

verus! {

/// Abstract state of a [`ListState`].
pub struct ListView {
    pub selected: nat,
    pub offset: nat,
    pub count: nat,
    pub viewport: nat,
}

/// The offset that puts `selected` inside a `viewport`-row window, moving
/// the window as little as possible from `offset`.
pub open spec fn visible_offset(selected: nat, offset: nat, viewport: nat) -> nat {
    if selected < offset {
        selected
    } else if viewport > 0 && selected >= offset + viewport {
        (selected + 1 - viewport) as nat
    } else {
        offset
    }
}

/// The selection clamped into a list of `count` rows.
pub open spec fn clamp_selection(selected: nat, count: nat) -> nat {
    if count == 0 {
        0
    } else if selected >= count {
        (count - 1) as nat
    } else {
        selected
    }
}

/// See module docs.
#[derive(Debug, Clone, Copy)]
pub struct ListState {
    selected: usize,
    offset: usize,
    count: usize,
    viewport: usize,
}

impl View for ListState {
    type V = ListView;

    closed spec fn view(&self) -> ListView {
        ListView {
            selected: self.selected as nat,
            offset: self.offset as nat,
            count: self.count as nat,
            viewport: self.viewport as nat,
        }
    }
}

impl ListState {
    /// Selection-in-range.
    #[verifier::type_invariant]
    spec fn selection_in_range(self) -> bool {
        self.selected == 0 || self.selected < self.count
    }

    pub fn new() -> (s: Self)
        ensures
            s@.selected == 0 && s@.offset == 0 && s@.count == 0 && s@.viewport == 0,
    {
        ListState { selected: 0, offset: 0, count: 0, viewport: 0 }
    }

    /// The selected row; always a row of the list (or 0 when it is empty).
    pub fn selected(&self) -> (r: usize)
        ensures
            r == self@.selected,
            r == 0 || r < self@.count,
    {
        proof {
            use_type_invariant(self);
        }
        self.selected
    }

    pub fn offset(&self) -> (r: usize)
        ensures
            r == self@.offset,
    {
        self.offset
    }

    pub fn count(&self) -> (r: usize)
        ensures
            r == self@.count,
    {
        self.count
    }

    pub fn viewport(&self) -> (r: usize)
        ensures
            r == self@.viewport,
    {
        self.viewport
    }

    fn visible_offset_exec(selected: usize, offset: usize, viewport: usize) -> (r: usize)
        requires
            selected < usize::MAX,
        ensures
            r == visible_offset(selected as nat, offset as nat, viewport as nat),
    {
        if selected < offset {
            selected
        } else if viewport > 0 && selected - offset >= viewport {
            selected + 1 - viewport
        } else {
            offset
        }
    }

    /// Resize the list: the selection is clamped and scrolled into view.
    pub fn set_count(&mut self, count: usize)
        ensures
            final(self)@.count == count,
            final(self)@.selected == clamp_selection(old(self)@.selected, count as nat),
            final(self)@.offset == visible_offset(
                final(self)@.selected,
                old(self)@.offset,
                old(self)@.viewport,
            ),
            final(self)@.viewport == old(self)@.viewport,
    {
        proof {
            use_type_invariant(&*self);
        }
        let sel = if count == 0 {
            0
        } else if self.selected >= count {
            count - 1
        } else {
            self.selected
        };
        let off = Self::visible_offset_exec(sel, self.offset, self.viewport);
        *self = ListState { selected: sel, offset: off, count, viewport: self.viewport };
    }

    /// Resize the viewport: the selection is scrolled into view.
    pub fn set_viewport(&mut self, viewport: usize)
        ensures
            final(self)@.viewport == viewport,
            final(self)@.offset == visible_offset(old(self)@.selected, old(self)@.offset, viewport as nat),
            final(self)@.selected == old(self)@.selected,
            final(self)@.count == old(self)@.count,
    {
        proof {
            use_type_invariant(&*self);
        }
        let off = Self::visible_offset_exec(self.selected, self.offset, viewport);
        self.offset = off;
        self.viewport = viewport;
    }

    /// Select row `selected` (clamped into the list), scrolling it into view.
    pub fn set_selected(&mut self, selected: usize)
        ensures
            final(self)@.selected == clamp_selection(selected as nat, old(self)@.count),
            final(self)@.offset == visible_offset(
                final(self)@.selected,
                old(self)@.offset,
                old(self)@.viewport,
            ),
            final(self)@.count == old(self)@.count,
            final(self)@.viewport == old(self)@.viewport,
    {
        proof {
            use_type_invariant(&*self);
        }
        let count = self.count;
        let sel = if count == 0 {
            0
        } else if selected >= count {
            count - 1
        } else {
            selected
        };
        let off = Self::visible_offset_exec(sel, self.offset, self.viewport);
        *self = ListState { selected: sel, offset: off, count, viewport: self.viewport };
    }

    /// Set the window's first row directly.
    pub fn set_offset(&mut self, offset: usize)
        ensures
            final(self)@.offset == offset,
            final(self)@.selected == old(self)@.selected,
            final(self)@.count == old(self)@.count,
            final(self)@.viewport == old(self)@.viewport,
    {
        proof {
            use_type_invariant(&*self);
        }
        self.offset = offset;
    }

    /// Back to the first row, window at the top.
    pub fn reset(&mut self)
        ensures
            final(self)@.selected == 0,
            final(self)@.offset == 0,
            final(self)@.count == old(self)@.count,
            final(self)@.viewport == old(self)@.viewport,
    {
        proof {
            use_type_invariant(&*self);
        }
        self.selected = 0;
        self.offset = 0;
    }
}

impl Default for ListState {
    fn default() -> (s: Self)
        ensures
            s@.selected == 0 && s@.offset == 0 && s@.count == 0 && s@.viewport == 0,
    {
        ListState::new()
    }
}

} // verus!
