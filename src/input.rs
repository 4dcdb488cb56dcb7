//! Keys and the editable line of text that the session's prompts use.

use vstd::prelude::*;
use crate::lines::push_char;

verus! {

/// A key press, as the session sees it.
#[derive(Clone, Copy, Debug, PartialEq, Eq, Structural)]
pub enum KeyInput {
    Char(char),
    Enter,
    Esc,
    Backspace,
    Left,
    Right,
    Other,
}

/// Whether a key confirms a yes/no question: `y` or `Y`; any other key says no.
pub open spec fn confirms(key: KeyInput) -> bool {
    key == KeyInput::Char('y') || key == KeyInput::Char('Y')
}

/// Whether a key confirms a yes/no question (see [`confirms`]).
pub fn get_confirmation(key: KeyInput) -> (r: bool)
    ensures
        r == confirms(key),
{
    match key {
        KeyInput::Char(c) => c == 'y' || c == 'Y',
        _ => false,
    }
}

/// The value of a line of text being edited: its characters and the cursor.
pub struct InputView {
    pub text: Seq<char>,
    pub cursor: nat,
}

/// What an editing key does to a line of text: a character goes in at the cursor,
/// backspace takes out the character before it, left and right move it. Other keys
/// change nothing.
pub open spec fn input_next(t: InputView, key: KeyInput) -> InputView {
    match key {
        KeyInput::Char(c) => InputView { text: t.text.insert(t.cursor as int, c), cursor: t.cursor + 1 },
        KeyInput::Backspace => if t.cursor > 0 {
            InputView { text: t.text.remove(t.cursor - 1), cursor: (t.cursor - 1) as nat }
        } else {
            t
        },
        KeyInput::Left => if t.cursor > 0 {
            InputView { cursor: (t.cursor - 1) as nat, ..t }
        } else {
            t
        },
        KeyInput::Right => if t.cursor < t.text.len() {
            InputView { cursor: t.cursor + 1, ..t }
        } else {
            t
        },
        _ => t,
    }
}

/// A line of text being edited, with its cursor.
#[derive(Debug)]
pub struct TextInput {
    text: Vec<char>,
    cursor: usize,
}

impl View for TextInput {
    type V = InputView;

    closed spec fn view(&self) -> InputView {
        InputView { text: self.text@, cursor: self.cursor as nat }
    }
}

/// The cursor lies within the text.
pub open spec fn input_wf(t: InputView) -> bool {
    t.cursor <= t.text.len()
}

impl TextInput {
    /// The cursor lies within the text.
    pub open spec fn wf(&self) -> bool {
        input_wf(self@)
    }

    /// An empty line.
    pub fn new() -> (r: TextInput)
        ensures
            r.wf(),
            r@ == (InputView { text: Seq::empty(), cursor: 0 }),
    {
        TextInput { text: Vec::new(), cursor: 0 }
    }

    /// A line holding `s`, with the cursor at its end.
    pub fn with_text(s: &str) -> (r: TextInput)
        ensures
            r.wf(),
            r@ == (InputView { text: s@, cursor: s@.len() }),
    {
        let mut text: Vec<char> = Vec::new();
        for c in it: s.chars()
            invariant
                it.seq() == s@,
                text@ == s@.take(it.index() as int),
        {
            text.push(c);
            assert(text@ =~= s@.take(it.index() + 1));
        }
        assert(s@.take(s@.len() as int) =~= s@);
        let cursor = text.len();
        TextInput { text, cursor }
    }

    /// The text, as a string.
    pub fn text(&self) -> (r: String)
        ensures
            r@ == self@.text,
    {
        let mut r = String::new();
        for i in 0..self.text.len()
            invariant
                r@ == self.text@.take(i as int),
        {
            push_char(&mut r, self.text[i]);
            assert(r@ =~= self.text@.take(i + 1));
        }
        assert(self.text@.take(self.text@.len() as int) =~= self.text@);
        r
    }

    /// The cursor's position.
    pub fn cursor(&self) -> (r: usize)
        ensures
            r == self@.cursor,
    {
        self.cursor
    }

    /// Applies an editing key (see [`input_next`]). A character is refused where the
    /// line could no longer be measured.
    pub fn apply(&mut self, key: KeyInput)
        requires
            old(self).wf(),
        ensures
            final(self).wf(),
            final(self)@ == if key is Char && old(self)@.text.len() + 1 >= usize::MAX {
                old(self)@
            } else {
                input_next(old(self)@, key)
            },
    {
        match key {
            KeyInput::Char(c) => {
                if self.text.len() < usize::MAX - 1 {
                    self.text.insert(self.cursor, c);
                    self.cursor = self.cursor + 1;
                }
            },
            KeyInput::Backspace => {
                if self.cursor > 0 {
                    self.text.remove(self.cursor - 1);
                    self.cursor = self.cursor - 1;
                }
            },
            KeyInput::Left => {
                if self.cursor > 0 {
                    self.cursor = self.cursor - 1;
                }
            },
            KeyInput::Right => {
                if self.cursor < self.text.len() {
                    self.cursor = self.cursor + 1;
                }
            },
            _ => {},
        }
    }
}

} // verus!
