//! The single-line text entry that the user types a message into.

use vstd::prelude::*;
use vstd::string::*;

verus! {

/// The text and caret after typing `c` at the caret.
pub open spec fn inserted(text: Seq<char>, cursor: nat, c: char) -> (Seq<char>, nat) {
    (text.take(cursor as int) + seq![c] + text.skip(cursor as int), cursor + 1)
}

/// The text and caret after deleting the character before the caret, if any.
pub open spec fn erased(text: Seq<char>, cursor: nat) -> (Seq<char>, nat) {
    if cursor == 0 {
        (text, cursor)
    } else {
        (text.take(cursor - 1) + text.skip(cursor as int), (cursor - 1) as nat)
    }
}

/// Relies on `String::push`: the character is appended at the end.
#[verifier::external_body]
pub(crate) fn push_char(s: &mut String, c: char)
    ensures
        final(s)@ == old(s)@.push(c),
{
    s.push(c)
}

/// The text typed so far and the position of the caret in it, counted in
/// characters.
pub struct InputBox {
    text: String,
    cursor: usize,
    selection: Option<usize>,
}

impl InputBox {
    /// The caret never stands past the end of the text.
    pub open spec fn wf(&self) -> bool {
        self.cursor_view() <= self.text_view().len()
    }

    pub closed spec fn text_view(&self) -> Seq<char> {
        self.text@
    }

    pub closed spec fn cursor_view(&self) -> nat {
        self.cursor as nat
    }

    pub closed spec fn selection_view(&self) -> Option<usize> {
        self.selection
    }

    /// An empty entry with the caret at the start.
    pub fn new() -> (r: InputBox)
        ensures
            r.wf(),
            r.text_view() == Seq::<char>::empty(),
            r.cursor_view() == 0,
            r.selection_view() is None,
    {
        InputBox { text: String::new(), cursor: 0, selection: None }
    }

    /// Types `c` at the caret and moves the caret past it.
    pub fn insert(&mut self, c: char)
        requires
            old(self).wf(),
            old(self).text_view().len() + 1 < usize::MAX,
        ensures
            final(self).wf(),
            (final(self).text_view(), final(self).cursor_view()) == inserted(
                old(self).text_view(),
                old(self).cursor_view(),
                c,
            ),
            final(self).selection_view() == old(self).selection_view(),
    {
        let len = self.text.as_str().unicode_len();
        let mut t = String::from_str(self.text.as_str().substring_char(0, self.cursor));
        push_char(&mut t, c);
        t.append(self.text.as_str().substring_char(self.cursor, len));
        self.text = t;
        self.cursor = self.cursor + 1;
    }

    /// Deletes the character before the caret; does nothing at the start.
    pub fn backspace(&mut self)
        requires
            old(self).wf(),
        ensures
            final(self).wf(),
            (final(self).text_view(), final(self).cursor_view()) == erased(
                old(self).text_view(),
                old(self).cursor_view(),
            ),
            final(self).selection_view() == old(self).selection_view(),
    {
        if self.cursor > 0 {
            let len = self.text.as_str().unicode_len();
            let mut t = String::from_str(self.text.as_str().substring_char(0, self.cursor - 1));
            t.append(self.text.as_str().substring_char(self.cursor, len));
            self.text = t;
            self.cursor = self.cursor - 1;
        }
    }

    /// Hands out the text typed so far and leaves the entry empty, with the
    /// caret at the start and nothing selected.
    pub fn take_text(&mut self) -> (r: String)
        ensures
            r@ == old(self).text_view(),
            final(self).wf(),
            final(self).text_view() == Seq::<char>::empty(),
            final(self).cursor_view() == 0,
            final(self).selection_view() is None,
    {
        let mut r = String::new();
        std::mem::swap(&mut r, &mut self.text);
        self.cursor = 0;
        self.selection = None;
        r
    }

    /// Whether nothing has been typed.
    pub fn is_empty(&self) -> (r: bool)
        ensures
            r == (self.text_view().len() == 0),
    {
        self.text.as_str().unicode_len() == 0
    }

    pub fn text(&self) -> (r: &String)
        ensures
            r@ == self.text_view(),
    {
        &self.text
    }

    pub fn cursor(&self) -> (r: usize)
        ensures
            r as nat == self.cursor_view(),
    {
        self.cursor
    }

    pub fn selection(&self) -> (r: Option<usize>)
        ensures
            r == self.selection_view(),
    {
        self.selection
    }
}

} // verus!
