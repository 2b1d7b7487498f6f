//! Scroll offset + max + viewport for a scrollable content surface.
//!
//! Owns the invariant *offset stays within [0, max]*. `set_max` is called
//! from layout once the renderer knows how many lines the content produced;
//! `set_viewport` is called when the visible window resizes. `set_max`
//! clamps `offset` if the content shrank below it.

use vstd::prelude::*;

verus! {

/// See module docs.
#[derive(Debug, Clone, Copy)]
pub struct ScrollState {
    offset: usize,
    max: usize,
    viewport_size: usize,
}

/// Abstract state of a [`ScrollState`].
pub struct ScrollView {
    pub offset: nat,
    pub max: nat,
    pub viewport_size: nat,
}

impl View for ScrollState {
    type V = ScrollView;

    closed spec fn view(&self) -> ScrollView {
        ScrollView {
            offset: self.offset as nat,
            max: self.max as nat,
            viewport_size: self.viewport_size as nat,
        }
    }
}

impl ScrollState {
    /// Scroll-in-bounds: the offset never passes the maximum.
    #[verifier::type_invariant]
    spec fn in_bounds(self) -> bool {
        self.offset <= self.max
    }

    pub fn new() -> (s: Self)
        ensures
            s@.offset == 0 && s@.max == 0 && s@.viewport_size == 0,
    {
        ScrollState { offset: 0, max: 0, viewport_size: 0 }
    }

    /// The current offset; always within `[0, max]`.
    pub fn offset(&self) -> (r: usize)
        ensures
            r == self@.offset,
            r <= self@.max,
    {
        proof {
            use_type_invariant(self);
        }
        self.offset
    }

    pub fn max(&self) -> (r: usize)
        ensures
            r == self@.max,
    {
        self.max
    }

    pub fn viewport_size(&self) -> (r: usize)
        ensures
            r == self@.viewport_size,
    {
        self.viewport_size
    }

    /// Update the maximum scrollable offset, clamping the offset to it.
    pub fn set_max(&mut self, max: usize)
        ensures
            final(self)@.max == max,
            final(self)@.offset == if old(self)@.offset > max {
                max as nat
            } else {
                old(self)@.offset
            },
            final(self)@.viewport_size == old(self)@.viewport_size,
    {
        proof {
            use_type_invariant(&*self);
        }
        if self.offset > max {
            self.offset = max;
        }
        self.max = max;
    }

    pub fn set_viewport(&mut self, viewport_size: usize)
        ensures
            final(self)@.viewport_size == viewport_size,
            final(self)@.offset == old(self)@.offset,
            final(self)@.max == old(self)@.max,
    {
        proof {
            use_type_invariant(&*self);
        }
        self.viewport_size = viewport_size;
    }

    /// Move down `lines`, stopping at `max`.
    pub fn scroll_down(&mut self, lines: usize)
        ensures
            final(self)@.offset == if old(self)@.offset + lines > old(self)@.max {
                old(self)@.max
            } else {
                (old(self)@.offset + lines) as nat
            },
            final(self)@.max == old(self)@.max,
            final(self)@.viewport_size == old(self)@.viewport_size,
    {
        proof {
            use_type_invariant(&*self);
        }
        let target = self.offset.saturating_add(lines);
        self.offset = if target > self.max {
            self.max
        } else {
            target
        };
    }

    /// Move up `lines`, stopping at 0.
    pub fn scroll_up(&mut self, lines: usize)
        ensures
            final(self)@.offset == if old(self)@.offset >= lines {
                (old(self)@.offset - lines) as nat
            } else {
                0
            },
            final(self)@.max == old(self)@.max,
            final(self)@.viewport_size == old(self)@.viewport_size,
    {
        proof {
            use_type_invariant(&*self);
        }
        self.offset = self.offset.saturating_sub(lines);
    }

    /// Scroll down by one viewport (at least one line).
    pub fn page_down(&mut self)
        ensures
            ({
                let step = if old(self)@.viewport_size > 1 {
                    old(self)@.viewport_size
                } else {
                    1
                };
                final(self)@.offset == if old(self)@.offset + step > old(self)@.max {
                    old(self)@.max
                } else {
                    (old(self)@.offset + step) as nat
                }
            }),
            final(self)@.max == old(self)@.max,
            final(self)@.viewport_size == old(self)@.viewport_size,
    {
        proof {
            use_type_invariant(&*self);
        }
        let step = if self.viewport_size > 1 {
            self.viewport_size
        } else {
            1
        };
        self.scroll_down(step);
    }

    /// Scroll up by one viewport (at least one line).
    pub fn page_up(&mut self)
        ensures
            ({
                let step = if old(self)@.viewport_size > 1 {
                    old(self)@.viewport_size
                } else {
                    1
                };
                final(self)@.offset == if old(self)@.offset >= step {
                    (old(self)@.offset - step) as nat
                } else {
                    0
                }
            }),
            final(self)@.max == old(self)@.max,
            final(self)@.viewport_size == old(self)@.viewport_size,
    {
        proof {
            use_type_invariant(&*self);
        }
        let step = if self.viewport_size > 1 {
            self.viewport_size
        } else {
            1
        };
        self.scroll_up(step);
    }

    pub fn scroll_to_top(&mut self)
        ensures
            final(self)@.offset == 0,
            final(self)@.max == old(self)@.max,
            final(self)@.viewport_size == old(self)@.viewport_size,
    {
        proof {
            use_type_invariant(&*self);
        }
        self.offset = 0;
    }

    pub fn scroll_to_bottom(&mut self)
        ensures
            final(self)@.offset == old(self)@.max,
            final(self)@.max == old(self)@.max,
            final(self)@.viewport_size == old(self)@.viewport_size,
    {
        proof {
            use_type_invariant(&*self);
        }
        self.offset = self.max;
    }

    /// Jump to `offset`, clamped to `max`.
    pub fn set_offset(&mut self, offset: usize)
        ensures
            final(self)@.offset == if offset > old(self)@.max {
                old(self)@.max
            } else {
                offset as nat
            },
            final(self)@.max == old(self)@.max,
            final(self)@.viewport_size == old(self)@.viewport_size,
    {
        proof {
            use_type_invariant(&*self);
        }
        self.offset = if offset > self.max {
            self.max
        } else {
            offset
        };
    }

    /// Back to the top; `max` and the viewport are kept.
    pub fn reset(&mut self)
        ensures
            final(self)@.offset == 0,
            final(self)@.max == old(self)@.max,
            final(self)@.viewport_size == old(self)@.viewport_size,
    {
        proof {
            use_type_invariant(&*self);
        }
        self.offset = 0;
    }
}

impl Default for ScrollState {
    fn default() -> (s: Self)
        ensures
            s@.offset == 0 && s@.max == 0 && s@.viewport_size == 0,
    {
        ScrollState::new()
    }
}

} // verus!
