//! Single-line text inputs and the key events that drive the screens.
//!
//! A [`TextInput`] is a value with a cursor (a character index). Edits are
//! applied by `tui_input`, the crate the terminal front end renders inputs
//! with; what they do is stated in [`TextInput::handle`].

use vstd::prelude::*;

use crate::text::chars_of;
use tui_input::InputRequest as R;

verus! {

/// One editing request on a text input (the requests of `tui_input`).
#[derive(Clone, Copy, PartialEq, Eq, Debug, Structural)]
pub enum EditRequest {
    SetCursor(usize),
    InsertChar(char),
    GoToPrevChar,
    GoToNextChar,
    GoToPrevWord,
    GoToNextWord,
    GoToStart,
    GoToEnd,
    DeletePrevChar,
    DeleteNextChar,
    DeletePrevWord,
    DeleteNextWord,
    DeleteLine,
    DeleteTillEnd,
}

/// A key as the screens see it.
#[derive(Clone, Copy, PartialEq, Eq, Debug, Structural)]
pub enum KeyCode {
    Char(char),
    Enter,
    Esc,
    Tab,
    BackTab,
    Backspace,
    Delete,
    Up,
    Down,
    Left,
    Right,
    Home,
    End,
    Other,
}

/// A key press: its code, whether Control was held, and the edit a focused
/// text input makes of it (`None` when it is no editing key).
#[derive(Clone, Copy, PartialEq, Eq, Debug, Structural)]
pub struct KeyInput {
    pub code: KeyCode,
    pub ctrl: bool,
    pub edit: Option<EditRequest>,
}

#[verifier::external_type_specification]
#[verifier::external_body]
pub struct ExInputRequest(tui_input::InputRequest);

/// `tui_input::Input::handle`'s result, as (value, cursor), for an input
/// holding `value` with the cursor at `cursor`.
pub uninterp spec fn tui_handle(value: Seq<char>, cursor: nat, req: EditRequest) -> (Seq<char>, nat);

/// What `Input::handle` does on the requests that move by characters or
/// clear, read from `tui_input`'s source; word-wise requests are only named.
pub open spec fn handle_char_wise(v: Seq<char>, cur: nat, req: EditRequest, r: (Seq<char>, nat)) -> bool {
    match req {
        EditRequest::SetCursor(pos) => r == (v, if pos < v.len() { pos as nat } else { v.len() }),
        EditRequest::InsertChar(c) => r == (v.take(cur as int).push(c) + v.skip(cur as int), cur + 1),
        EditRequest::GoToPrevChar => r == (v, if cur == 0 { 0nat } else { (cur - 1) as nat }),
        EditRequest::GoToNextChar => r == (v, if cur == v.len() { cur } else { cur + 1 }),
        EditRequest::GoToStart => r == (v, 0nat),
        EditRequest::GoToEnd => r == (v, v.len()),
        EditRequest::DeletePrevChar => r == if cur == 0 {
            (v, cur)
        } else {
            (v.remove(cur - 1), (cur - 1) as nat)
        },
        EditRequest::DeleteNextChar => r == if cur == v.len() {
            (v, cur)
        } else {
            (v.remove(cur as int), cur)
        },
        EditRequest::DeleteLine => r == if v.len() == 0 {
            (v, cur)
        } else {
            (Seq::<char>::empty(), 0nat)
        },
        EditRequest::DeleteTillEnd => r == (v.take(cur as int), cur),
        _ => true,
    }
}

#[verifier::external_body]
fn to_tui_request(req: EditRequest) -> tui_input::InputRequest {
    match req {
        EditRequest::SetCursor(p) => R::SetCursor(p), EditRequest::InsertChar(c) => R::InsertChar(c),
        EditRequest::GoToPrevChar => R::GoToPrevChar, EditRequest::GoToNextChar => R::GoToNextChar,
        EditRequest::GoToPrevWord => R::GoToPrevWord, EditRequest::GoToNextWord => R::GoToNextWord,
        EditRequest::GoToStart => R::GoToStart, EditRequest::GoToEnd => R::GoToEnd,
        EditRequest::DeletePrevChar => R::DeletePrevChar, EditRequest::DeleteNextChar => R::DeleteNextChar,
        EditRequest::DeletePrevWord => R::DeletePrevWord, EditRequest::DeleteNextWord => R::DeleteNextWord,
        EditRequest::DeleteLine => R::DeleteLine, EditRequest::DeleteTillEnd => R::DeleteTillEnd,
    }
}

/// `tui_input::Input::handle` on an input holding `value` with the cursor at
/// `cursor` (at most the length). The result is named; for the requests that
/// move by one character, insert, delete one character or clear, the
/// contract states it as the crate's source computes it; for every request
/// the new cursor is at most the new length. What the word-wise requests
/// do is left to the name.
#[verifier::external_body]
fn tui_input_handle(value: &String, cursor: usize, req: EditRequest) -> (r: (String, usize))
    requires
        cursor <= value@.len(),
    ensures
        (r.0@, r.1 as nat) == tui_handle(value@, cursor as nat, req),
        r.1 <= r.0@.len(),
        value@.len() < usize::MAX ==> handle_char_wise(value@, cursor as nat, req, (r.0@, r.1 as nat)),
{
    let mut input = tui_input::Input::new(value.clone()).with_cursor(cursor);
    input.handle(to_tui_request(req));
    (input.value().to_string(), input.cursor())
}

/// A text input: a value and a cursor, a character index into it.
pub struct TextInput {
    value: String,
    cursor: usize,
}

impl TextInput {
    #[verifier::type_invariant]
    spec fn inv(self) -> bool {
        self.cursor <= self.value@.len()
    }

    /// The value.
    pub closed spec fn text(self) -> Seq<char> {
        self.value@
    }

    /// The cursor position.
    pub closed spec fn pos(self) -> nat {
        self.cursor as nat
    }

    /// An input holding `value`, with the cursor at its end.
    pub fn new(value: String) -> (r: Self)
        ensures
            r.text() == value@,
            r.pos() == value@.len(),
    {
        let n = chars_of(value.as_str()).len();
        TextInput { value, cursor: n }
    }

    /// An empty input.
    pub fn empty() -> (r: Self)
        ensures
            r.text() == Seq::<char>::empty(),
            r.pos() == 0,
    {
        TextInput { value: String::new(), cursor: 0 }
    }

    /// The value.
    pub fn value(&self) -> (r: &str)
        ensures
            r@ == self.text(),
    {
        self.value.as_str()
    }

    /// The cursor position.
    pub fn cursor(&self) -> (r: usize)
        ensures
            r == self.pos(),
            r <= self.text().len(),
    {
        proof {
            use_type_invariant(self);
        }
        self.cursor
    }

    /// A copy of the input.
    pub fn duplicate(&self) -> (r: Self)
        ensures
            r.text() == self.text(),
            r.pos() == self.pos(),
    {
        proof {
            use_type_invariant(self);
        }
        TextInput { value: self.value.clone(), cursor: self.cursor }
    }

    /// Apply one editing request.
    pub fn handle(&mut self, req: EditRequest)
        ensures
            (final(self).text(), final(self).pos()) == tui_handle(old(self).text(), old(self).pos(), req),
            old(self).text().len() < usize::MAX ==> handle_char_wise(
                old(self).text(),
                old(self).pos(),
                req,
                (final(self).text(), final(self).pos()),
            ),
    {
        proof {
            use_type_invariant(&*self);
        }
        let (v, c) = tui_input_handle(&self.value, self.cursor, req);
        *self = TextInput { value: v, cursor: c };
    }
}

} // verus!
