//! Text input buffer + focus state.
//!
//! Owns the buffer, the focused flag, and an optional lowercase mirror used
//! by search-style consumers that match case-insensitively against every
//! item. The mirror is opt-in via [`TextInputState::with_lower_mirror`];
//! every mutator keeps it equal to the buffer, lower-cased.

use vstd::prelude::*;

use crate::text::{str_lowercase, lowercase, pop_char, push_char};

verus! {

/// See module docs.
#[derive(Debug, Clone)]
pub struct TextInputState {
    buffer: String,
    focused: bool,
    lower_mirror: Option<String>,
}

impl TextInputState {
    pub closed spec fn buffer_view(&self) -> Seq<char> {
        self.buffer@
    }

    pub closed spec fn focused_view(&self) -> bool {
        self.focused
    }

    /// Whether the consumer opted into the lowercase mirror.
    pub closed spec fn mirrored(&self) -> bool {
        self.lower_mirror is Some
    }

    /// The mirror, when present, is the buffer lower-cased.
    pub closed spec fn wf(&self) -> bool {
        match &self.lower_mirror {
            Some(m) => m@ == str_lowercase(self.buffer@),
            None => true,
        }
    }

    pub fn new() -> (s: Self)
        ensures
            s.wf(),
            s.buffer_view() == Seq::<char>::empty(),
            !s.focused_view(),
            !s.mirrored(),
    {
        TextInputState { buffer: String::new(), focused: false, lower_mirror: None }
    }

    /// An empty input that keeps a lowercase mirror of its buffer.
    pub fn with_lower_mirror() -> (s: Self)
        ensures
            s.wf(),
            s.buffer_view() == Seq::<char>::empty(),
            !s.focused_view(),
            s.mirrored(),
    {
        let buffer = String::new();
        let mirror = lowercase(buffer.as_str());
        TextInputState { buffer, focused: false, lower_mirror: Some(mirror) }
    }

    pub fn buffer(&self) -> (r: &str)
        ensures
            r@ == self.buffer_view(),
    {
        self.buffer.as_str()
    }

    /// The lowercase mirror, or `""` when the consumer did not opt in.
    pub fn lower(&self) -> (r: &str)
        requires
            self.wf(),
        ensures
            r@ == if self.mirrored() {
                str_lowercase(self.buffer_view())
            } else {
                Seq::<char>::empty()
            },
    {
        match &self.lower_mirror {
            Some(m) => m.as_str(),
            None => {
                proof {
                    reveal_strlit("");
                }
                ""
            },
        }
    }

    pub fn is_focused(&self) -> (r: bool)
        ensures
            r == self.focused_view(),
    {
        self.focused
    }

    pub fn is_empty(&self) -> (r: bool)
        ensures
            r == (self.buffer_view().len() == 0),
    {
        self.buffer.as_str().is_empty()
    }

    /// Length of the buffer in bytes (UTF-8).
    pub fn len(&self) -> (n: usize)
        ensures
            n == vstd::utf8::encode_utf8(self.buffer_view()).len() as usize,
    {
        self.buffer.as_str().len()
    }

    pub fn focus(&mut self)
        ensures
            final(self).focused_view(),
            final(self).buffer_view() == old(self).buffer_view(),
            final(self).mirrored() == old(self).mirrored(),
            final(self).wf() == old(self).wf(),
    {
        self.focused = true;
    }

    pub fn blur(&mut self)
        ensures
            !final(self).focused_view(),
            final(self).buffer_view() == old(self).buffer_view(),
            final(self).mirrored() == old(self).mirrored(),
            final(self).wf() == old(self).wf(),
    {
        self.focused = false;
    }

    pub fn push_char(&mut self, c: char)
        requires
            old(self).wf(),
        ensures
            final(self).wf(),
            final(self).buffer_view() == old(self).buffer_view().push(c),
            final(self).focused_view() == old(self).focused_view(),
            final(self).mirrored() == old(self).mirrored(),
    {
        push_char(&mut self.buffer, c);
        self.refresh_lower();
    }

    /// Remove and return the last character, if any.
    pub fn pop_char(&mut self) -> (r: Option<char>)
        requires
            old(self).wf(),
        ensures
            final(self).wf(),
            old(self).buffer_view().len() == 0 ==> r.is_none() && final(self).buffer_view()
                == old(self).buffer_view(),
            old(self).buffer_view().len() > 0 ==> r == Some(old(self).buffer_view().last())
                && final(self).buffer_view() == old(self).buffer_view().drop_last(),
            final(self).focused_view() == old(self).focused_view(),
            final(self).mirrored() == old(self).mirrored(),
    {
        let popped = pop_char(&mut self.buffer);
        if popped.is_some() {
            self.refresh_lower();
        }
        popped
    }

    pub fn clear(&mut self)
        requires
            old(self).wf(),
        ensures
            final(self).wf(),
            final(self).buffer_view() == Seq::<char>::empty(),
            final(self).focused_view() == old(self).focused_view(),
            final(self).mirrored() == old(self).mirrored(),
    {
        self.buffer = String::new();
        self.refresh_lower();
    }

    /// Replace the buffer with `value`.
    pub fn set(&mut self, value: String)
        requires
            old(self).wf(),
        ensures
            final(self).wf(),
            final(self).buffer_view() == value@,
            final(self).focused_view() == old(self).focused_view(),
            final(self).mirrored() == old(self).mirrored(),
    {
        self.buffer = value;
        self.refresh_lower();
    }

    /// Take the buffer contents, leaving the input empty.
    pub fn take(&mut self) -> (out: String)
        requires
            old(self).wf(),
        ensures
            final(self).wf(),
            out@ == old(self).buffer_view(),
            final(self).buffer_view() == Seq::<char>::empty(),
            final(self).focused_view() == old(self).focused_view(),
            final(self).mirrored() == old(self).mirrored(),
    {
        let mut out = String::new();
        std::mem::swap(&mut out, &mut self.buffer);
        self.refresh_lower();
        out
    }

    fn refresh_lower(&mut self)
        ensures
            final(self).wf(),
            final(self).buffer_view() == old(self).buffer_view(),
            final(self).focused_view() == old(self).focused_view(),
            final(self).mirrored() == old(self).mirrored(),
    {
        if self.lower_mirror.is_some() {
            self.lower_mirror = Some(lowercase(self.buffer.as_str()));
        }
    }
}

impl Default for TextInputState {
    fn default() -> (s: Self)
        ensures
            s.wf(),
            s.buffer_view() == Seq::<char>::empty(),
            !s.focused_view(),
            !s.mirrored(),
    {
        TextInputState::new()
    }
}

} // verus!
