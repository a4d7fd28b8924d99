//! A one-line text input with a cursor.

use crate::feat::tui::{Event, EventExt, EventPropagation, KeyCode};
use vstd::prelude::*;

verus! {

/// The text buffer of the input box, a rope of the `ropey` crate.
#[verifier::external_type_specification]
#[verifier::external_body]
pub struct ExRope(ropey::Rope);

/// The characters that a rope holds, in their order.
pub uninterp spec fn rope_chars(rope: ropey::Rope) -> Seq<char>;

/// The first line of a text as `ropey` cuts it, line break included.
pub uninterp spec fn rope_first_line(text: Seq<char>) -> Seq<char>;

/// `Rope::clone`: the copy of a rope holds the characters of the rope.
pub assume_specification[ <ropey::Rope as Clone>::clone ](rope: &ropey::Rope) -> (r: ropey::Rope)
    ensures
        rope_chars(r) == rope_chars(*rope),
;

/// Calls `Rope::new`, which makes a rope without characters.
#[verifier::external_body]
fn rope_new() -> (r: ropey::Rope)
    ensures
        rope_chars(r) == Seq::<char>::empty(),
{
    ropey::Rope::new()
}

/// Calls `Rope::from_str`, which makes a rope that holds the characters of
/// the text.
#[verifier::external_body]
fn rope_from_str(text: &str) -> (r: ropey::Rope)
    ensures
        rope_chars(r) == text@,
{
    ropey::Rope::from_str(text)
}

/// Calls `Rope::len_chars`, the number of characters of the rope.
#[verifier::external_body]
fn rope_len_chars(rope: &ropey::Rope) -> (r: usize)
    ensures
        r == rope_chars(*rope).len(),
{
    rope.len_chars()
}

/// Calls `Rope::insert_char`, which puts one character at a position and
/// moves what stood there one place up. It panics behind the end of the
/// rope, so the position must not lie there.
#[verifier::external_body]
fn rope_insert_char(rope: &mut ropey::Rope, at: usize, ch: char)
    requires
        at <= rope_chars(*old(rope)).len(),
    ensures
        rope_chars(*final(rope)) == rope_chars(*old(rope)).insert(at as int, ch),
{
    rope.insert_char(at, ch);
}

/// Calls `Rope::remove` with the range `from..to`, which takes the
/// characters of the range out. It panics on a range that is reversed or
/// ends behind the rope.
#[verifier::external_body]
fn rope_remove(rope: &mut ropey::Rope, from: usize, to: usize)
    requires
        from <= to <= rope_chars(*old(rope)).len(),
    ensures
        rope_chars(*final(rope)) == rope_chars(*old(rope)).subrange(0, from as int) + rope_chars(
            *old(rope),
        ).subrange(to as int, rope_chars(*old(rope)).len() as int),
{
    rope.remove(from..to);
}

/// Calls `Rope::line` with the index 0, which every rope has, and copies
/// the line out. The contract only names the result.
#[verifier::external_body]
fn rope_line_zero(rope: &ropey::Rope) -> (r: String)
    ensures
        r@ == rope_first_line(rope_chars(*rope)),
{
    String::from(rope.line(0))
}

/// Calls `Rope::slice` with the range `from..to` and copies the slice out:
/// the characters of the range. It panics on a range that is reversed or
/// ends behind the rope.
#[verifier::external_body]
fn rope_slice(rope: &ropey::Rope, from: usize, to: usize) -> (r: String)
    requires
        from <= to <= rope_chars(*rope).len(),
    ensures
        r@ == rope_chars(*rope).subrange(from as int, to as int),
{
    String::from(rope.slice(from..to))
}

/// The text of an input box in three parts, for showing the cursor.
#[derive(Debug, Clone, PartialEq, Eq)]
pub struct CursorParts {
    /// What stands before the cursor.
    pub before: String,
    /// What the cursor stands on: a character of the text, or a blank where
    /// the cursor stands behind the text.
    pub at: String,
    /// What stands behind the cursor.
    pub after: String,
}

/// Error type for input box operations.
#[derive(Debug, Clone, Copy, PartialEq, Eq)]
pub struct InputBoxError;

/// State container for the input box widget.
///
/// This struct holds the current text content, cursor position, and focus state
/// of an input box. The cursor never stands behind the end of the text.
#[derive(Debug)]
pub struct InputBoxState {
    text: ropey::Rope,
    cursor: usize,
    is_focused: bool,
}

/// What an input box holds.
pub struct InputBoxView {
    pub text: Seq<char>,
    pub cursor: int,
    pub focused: bool,
}

impl InputBoxView {
    /// The cursor one place to the left, unless it stands at the start.
    pub open spec fn cursor_left(self) -> int {
        if self.cursor > 0 {
            self.cursor - 1
        } else {
            0
        }
    }

    /// The input box after an event.
    ///
    /// The press of a character key puts the character at the cursor and
    /// moves the cursor behind it. Backspace takes out the character before
    /// the cursor. The arrows move the cursor within the text. Nothing else
    /// changes the box.
    pub open spec fn after_input(self, event: Event) -> InputBoxView {
        match event.pressed_code() {
            Some(KeyCode::Char(ch)) => InputBoxView {
                text: self.text.insert(self.cursor, ch),
                cursor: self.cursor + 1,
                ..self
            },
            Some(KeyCode::Backspace) => if self.text.len() > 0 {
                InputBoxView {
                    text: self.text.subrange(0, self.cursor_left()) + self.text.subrange(
                        self.cursor,
                        self.text.len() as int,
                    ),
                    cursor: self.cursor_left(),
                    ..self
                }
            } else {
                self
            },
            Some(KeyCode::Left) => InputBoxView { cursor: self.cursor_left(), ..self },
            Some(KeyCode::Right) => if self.cursor < self.text.len() {
                InputBoxView { cursor: self.cursor + 1, ..self }
            } else {
                self
            },
            _ => self,
        }
    }

    /// What stands before the cursor.
    pub open spec fn before_cursor(self) -> Seq<char> {
        self.text.subrange(0, self.cursor)
    }

    /// What the cursor stands on: a character of the text, or a blank where
    /// the cursor stands behind the text.
    pub open spec fn at_cursor(self) -> Seq<char> {
        if self.cursor < self.text.len() {
            seq![self.text[self.cursor]]
        } else {
            seq![' ']
        }
    }

    /// What stands behind the cursor.
    pub open spec fn after_cursor(self) -> Seq<char> {
        if self.cursor < self.text.len() {
            self.text.subrange(self.cursor + 1, self.text.len() as int)
        } else {
            Seq::empty()
        }
    }

    /// Whether the input box takes an event for itself.
    pub open spec fn consumes(event: Event) -> bool {
        match event.pressed_code() {
            Some(KeyCode::Char(_)) => true,
            Some(KeyCode::Backspace) => true,
            Some(KeyCode::Left) => true,
            Some(KeyCode::Right) => true,
            _ => false,
        }
    }
}

impl View for InputBoxState {
    type V = InputBoxView;

    closed spec fn view(&self) -> InputBoxView {
        InputBoxView {
            text: rope_chars(self.text),
            cursor: self.cursor as int,
            focused: self.is_focused,
        }
    }
}

impl Default for InputBoxState {
    fn default() -> (r: Self)
        ensures
            r@ == (InputBoxView { text: Seq::empty(), cursor: 0, focused: false }),
    {
        InputBoxState { text: rope_new(), cursor: 0, is_focused: false }
    }
}

impl Clone for InputBoxState {
    fn clone(&self) -> (r: Self)
        ensures
            r@ == self@,
    {
        proof {
            use_type_invariant(self);
        }
        InputBoxState {
            text: self.text.clone(),
            cursor: self.cursor,
            is_focused: self.is_focused,
        }
    }
}

impl InputBoxState {
    #[verifier::type_invariant]
    spec fn cursor_in_text(&self) -> bool {
        self.cursor <= rope_chars(self.text).len()
    }

    /// Handles keyboard input events for the input box.
    ///
    /// Processes character input, backspace, and cursor movement keys.
    /// Returns `EventPropagation::Stop` when the event is handled by this input box,
    /// or `EventPropagation::Continue` when the event should be passed to other handlers.
    pub fn handle_input(&mut self, event: &Event) -> (r: EventPropagation)
        ensures
            final(self)@ == old(self)@.after_input(*event),
            r == if InputBoxView::consumes(*event) {
                EventPropagation::Stop
            } else {
                EventPropagation::Continue
            },
    {
        proof {
            use_type_invariant(&*self);
        }
        if let Some(key) = event.keypress() {
            match key {
                KeyCode::Char(ch) => {
                    let mut text = self.text.clone();
                    rope_insert_char(&mut text, self.cursor, ch);
                    let len = rope_len_chars(&text);
                    assert(self.cursor < len);
                    *self = InputBoxState {
                        text,
                        cursor: self.cursor + 1,
                        is_focused: self.is_focused,
                    };
                    return EventPropagation::Stop;
                },
                KeyCode::Backspace => {
                    let text_len = rope_len_chars(&self.text);
                    if text_len > 0 {
                        let before = if self.cursor > 0 {
                            self.cursor - 1
                        } else {
                            0
                        };
                        let mut text = self.text.clone();
                        rope_remove(&mut text, before, self.cursor);
                        *self = InputBoxState { text, cursor: before, is_focused: self.is_focused };
                    }
                    return EventPropagation::Stop;
                },
                KeyCode::Left => {
                    if self.cursor > 0 {
                        self.cursor -= 1;
                    }
                    return EventPropagation::Stop;
                },
                KeyCode::Right => {
                    if self.cursor < rope_len_chars(&self.text) {
                        self.cursor += 1;
                    }
                    return EventPropagation::Stop;
                },
                _ => (),
            }
        }
        EventPropagation::Continue
    }

    /// Sets the focus state of the input box.
    pub fn set_focused(&mut self, focused: bool)
        ensures
            final(self)@ == (InputBoxView { focused, ..old(self)@ }),
    {
        proof {
            use_type_invariant(&*self);
        }
        self.is_focused = focused;
    }

    /// Replaces the text of the input box and puts the cursor behind it.
    pub fn set_text(&mut self, text: &str)
        ensures
            final(self)@ == (InputBoxView {
                text: text@,
                cursor: text@.len() as int,
                ..old(self)@
            }),
    {
        let text = rope_from_str(text);
        let cursor = rope_len_chars(&text);
        *self = InputBoxState { text, cursor, is_focused: self.is_focused };
    }

    /// Returns the current text content of the input box: its first line.
    pub fn text(&self) -> (r: String)
        ensures
            r@ == rope_first_line(self@.text),
    {
        rope_line_zero(&self.text)
    }

    /// The text of the input box in three parts, for showing the cursor.
    pub fn format_text_with_cursor(&self) -> (r: CursorParts)
        ensures
            r.before@ == self@.before_cursor(),
            r.at@ == self@.at_cursor(),
            r.after@ == self@.after_cursor(),
    {
        proof {
            use_type_invariant(self);
        }
        let len = rope_len_chars(&self.text);
        if self.cursor == len {
            proof {
                reveal_strlit(" ");
                assert(" "@ =~= seq![' ']);
            }
            CursorParts {
                before: rope_slice(&self.text, 0, len),
                at: " ".to_owned(),
                after: String::new(),
            }
        } else {
            let at = rope_slice(&self.text, self.cursor, self.cursor + 1);
            assert(at@ =~= seq![rope_chars(self.text)[self.cursor as int]]);
            CursorParts {
                before: rope_slice(&self.text, 0, self.cursor),
                at,
                after: rope_slice(&self.text, self.cursor + 1, len),
            }
        }
    }

    /// The position of the cursor, counted in characters.
    pub fn cursor(&self) -> (r: usize)
        ensures
            r == self@.cursor,
            r <= self@.text.len(),
    {
        proof {
            use_type_invariant(self);
        }
        self.cursor
    }

    /// Whether the input box has the focus.
    pub fn is_focused(&self) -> (r: bool)
        ensures
            r == self@.focused,
    {
        self.is_focused
    }
}

} // verus!
