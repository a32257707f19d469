//! The line editor: a text buffer with a cursor, changed one key at a time.
//!
//! Positions count characters. What a key does is first said over the
//! mathematical state `EditorView`; `EditorState` is the buffer that does it.

use crate::keys::{to_ascii_uppercase, KeyCode, KeyPress};
use vstd::prelude::*;

verus! {

/// `String::push` of std: appends one character.
pub assume_specification[ String::push ](text: &mut String, ch: char)
    ensures
        final(text)@ == old(text)@.push(ch),
;

/// The state of the editor: the text, and the number of characters to the
/// left of the cursor.
pub struct EditorView {
    pub text: Seq<char>,
    pub cursor: nat,
}

/// What the editing loop does after a key.
#[derive(Clone, Copy, Debug, PartialEq, Eq)]
pub enum EditOutcome {
    /// Go on editing.
    Continue,
    /// Run the text in the buffer.
    Submit,
    /// Give the edit up and run the previous text.
    Discard,
    /// Leave the program.
    Quit,
}

impl EditorView {
    /// The cursor lies within the text or at its end.
    pub open spec fn wf(self) -> bool {
        self.cursor <= self.text.len()
    }

    /// The state in which editing of `text` starts: the cursor at the end.
    pub open spec fn start(text: Seq<char>) -> EditorView {
        EditorView { text, cursor: text.len() }
    }

    /// A character typed at the cursor.
    pub open spec fn insert(self, c: char) -> EditorView {
        EditorView { text: self.text.insert(self.cursor as int, c), cursor: self.cursor + 1 }
    }

    /// Backspace: the character before the cursor goes, if there is one.
    pub open spec fn backspace(self) -> EditorView {
        if self.cursor > 0 {
            EditorView {
                text: self.text.remove(self.cursor - 1),
                cursor: (self.cursor - 1) as nat,
            }
        } else {
            self
        }
    }

    /// Shift and Backspace: the whole text goes.
    pub open spec fn clear(self) -> EditorView {
        EditorView { text: Seq::empty(), cursor: 0 }
    }

    /// Left: the cursor moves one character back, if it can.
    pub open spec fn left(self) -> EditorView {
        if self.cursor > 0 {
            EditorView { text: self.text, cursor: (self.cursor - 1) as nat }
        } else {
            self
        }
    }

    /// Right: the cursor moves one character on, if it can.
    pub open spec fn right(self) -> EditorView {
        if self.cursor < self.text.len() {
            EditorView { text: self.text, cursor: self.cursor + 1 }
        } else {
            self
        }
    }

    /// Up: the cursor moves to the start.
    pub open spec fn home(self) -> EditorView {
        EditorView { text: self.text, cursor: 0 }
    }

    /// Down: the cursor moves to the end.
    pub open spec fn end(self) -> EditorView {
        EditorView { text: self.text, cursor: self.text.len() }
    }

    /// What the editing loop does after `key`. Control with `c` leaves the
    /// program, whatever else is held.
    pub open spec fn outcome(key: KeyPress) -> EditOutcome {
        match key.code {
            KeyCode::Char(c) if c == 'c' && key.control => EditOutcome::Quit,
            KeyCode::Esc => EditOutcome::Discard,
            KeyCode::Enter => EditOutcome::Submit,
            _ => EditOutcome::Continue,
        }
    }

    /// The state after `key`. Keys that end the editing, and keys without a
    /// meaning, change nothing.
    pub open spec fn press(self, key: KeyPress) -> EditorView {
        if Self::outcome(key) != EditOutcome::Continue {
            self
        } else {
            match key.code {
                KeyCode::Char(c) => self.insert(key.typed(c)),
                KeyCode::Backspace => if key.shift {
                    self.clear()
                } else {
                    self.backspace()
                },
                KeyCode::Left => self.left(),
                KeyCode::Right => self.right(),
                KeyCode::Up => self.home(),
                KeyCode::Down => self.end(),
                _ => self,
            }
        }
    }
}

/// The text being edited and the cursor in it.
pub struct EditorState {
    buffer: Vec<char>,
    cursor: usize,
}

impl View for EditorState {
    type V = EditorView;

    closed spec fn view(&self) -> EditorView {
        EditorView { text: self.buffer@, cursor: self.cursor as nat }
    }
}

impl EditorState {
    /// Starts editing `text`, with the cursor at its end.
    pub fn new(text: &str) -> (editor: EditorState)
        ensures
            editor@ == EditorView::start(text@),
            editor@.wf(),
    {
        let length: usize = text.unicode_len();
        let mut buffer: Vec<char> = Vec::new();
        let mut i: usize = 0;
        while i < length
            invariant
                i <= length,
                length == text@.len(),
                buffer@ == text@.subrange(0, i as int),
            decreases length - i,
        {
            buffer.push(text.get_char(i));
            assert(buffer@ =~= text@.subrange(0, i + 1));
            i += 1;
        }
        assert(buffer@ =~= text@);
        EditorState { buffer, cursor: length }
    }

    /// The number of characters to the left of the cursor.
    pub fn cursor(&self) -> (cursor: usize)
        ensures
            cursor == self@.cursor,
    {
        self.cursor
    }

    /// The number of characters in the text.
    pub fn len(&self) -> (length: usize)
        ensures
            length == self@.text.len(),
    {
        self.buffer.len()
    }

    /// The text as a string.
    pub fn text(&self) -> (text: String)
        ensures
            text@ == self@.text,
    {
        let mut text = String::new();
        let mut i: usize = 0;
        while i < self.buffer.len()
            invariant
                i <= self.buffer@.len(),
                text@ == self.buffer@.subrange(0, i as int),
            decreases self.buffer@.len() - i,
        {
            text.push(self.buffer[i]);
            assert(text@ =~= self.buffer@.subrange(0, i + 1));
            i += 1;
        }
        assert(text@ =~= self.buffer@);
        text
    }

    /// Types `c` at the cursor.
    pub fn insert(&mut self, c: char)
        requires
            old(self)@.wf(),
        ensures
            final(self)@ == old(self)@.insert(c),
            final(self)@.wf(),
    {
        self.buffer.insert(self.cursor, c);
        let length: usize = self.buffer.len();
        assert(self.cursor < length);
        self.cursor = self.cursor + 1;
    }

    /// Removes the character before the cursor, if there is one.
    pub fn backspace(&mut self)
        requires
            old(self)@.wf(),
        ensures
            final(self)@ == old(self)@.backspace(),
            final(self)@.wf(),
    {
        if self.cursor > 0 {
            self.cursor = self.cursor - 1;
            self.buffer.remove(self.cursor);
        }
    }

    /// Empties the text.
    pub fn clear(&mut self)
        requires
            old(self)@.wf(),
        ensures
            final(self)@ == old(self)@.clear(),
            final(self)@.wf(),
    {
        self.cursor = 0;
        self.buffer.clear();
    }

    /// Moves the cursor one character back, if it can.
    pub fn left(&mut self)
        requires
            old(self)@.wf(),
        ensures
            final(self)@ == old(self)@.left(),
            final(self)@.wf(),
    {
        if self.cursor > 0 {
            self.cursor = self.cursor - 1;
        }
    }

    /// Moves the cursor one character on, if it can.
    pub fn right(&mut self)
        requires
            old(self)@.wf(),
        ensures
            final(self)@ == old(self)@.right(),
            final(self)@.wf(),
    {
        if self.cursor < self.buffer.len() {
            self.cursor = self.cursor + 1;
        }
    }

    /// Moves the cursor to the start.
    pub fn home(&mut self)
        requires
            old(self)@.wf(),
        ensures
            final(self)@ == old(self)@.home(),
            final(self)@.wf(),
    {
        self.cursor = 0;
    }

    /// Moves the cursor to the end.
    pub fn end(&mut self)
        requires
            old(self)@.wf(),
        ensures
            final(self)@ == old(self)@.end(),
            final(self)@.wf(),
    {
        self.cursor = self.buffer.len();
    }

    /// Takes one key: changes the text or the cursor as the key says, and
    /// tells what the editing loop does next.
    pub fn press(&mut self, key: &KeyPress) -> (outcome: EditOutcome)
        requires
            old(self)@.wf(),
        ensures
            outcome == EditorView::outcome(*key),
            final(self)@ == old(self)@.press(*key),
            final(self)@.wf(),
    {
        match key.code {
            KeyCode::Char(c) => {
                if c == 'c' && key.control {
                    return EditOutcome::Quit;
                }
                let typed = if key.shift {
                    to_ascii_uppercase(c)
                } else {
                    c
                };
                self.insert(typed);
            },
            KeyCode::Esc => {
                return EditOutcome::Discard;
            },
            KeyCode::Enter => {
                return EditOutcome::Submit;
            },
            KeyCode::Backspace => {
                if key.shift {
                    self.clear();
                } else {
                    self.backspace();
                }
            },
            KeyCode::Left => self.left(),
            KeyCode::Right => self.right(),
            KeyCode::Up => self.home(),
            KeyCode::Down => self.end(),
            KeyCode::Other => {},
        }
        EditOutcome::Continue
    }
}

/// Whatever the key, the cursor stays within the text.
pub proof fn press_keeps_cursor_within(state: EditorView, key: KeyPress)
    requires
        state.wf(),
    ensures
        state.press(key).wf(),
{
}

/// A character typed with the cursor at the end is appended.
pub proof fn insert_at_end_appends(state: EditorView, c: char)
    requires
        state.cursor == state.text.len(),
    ensures
        state.insert(c).text == state.text.push(c),
        state.insert(c).cursor == state.text.len() + 1,
{
    assert(state.text.insert(state.cursor as int, c) =~= state.text.push(c));
}

/// With the cursor at the start, Backspace and Left change nothing; with
/// the cursor at the end, Right changes nothing.
pub proof fn moves_stop_at_the_ends(state: EditorView)
    requires
        state.wf(),
    ensures
        state.cursor == 0 ==> state.backspace() == state && state.left() == state,
        state.cursor == state.text.len() ==> state.right() == state,
{
}

/// Shift and Backspace leave an empty text with the cursor at its start,
/// whatever was there.
pub proof fn shift_backspace_empties(state: EditorView, key: KeyPress)
    requires
        key.code == KeyCode::Backspace,
        key.shift,
    ensures
        state.press(key).text == Seq::<char>::empty(),
        state.press(key).cursor == 0,
{
}

/// Typing a character and then pressing Backspace gives the state back.
pub proof fn backspace_undoes_insert(state: EditorView, c: char)
    requires
        state.wf(),
    ensures
        state.insert(c).backspace() == state,
{
    assert(state.text.insert(state.cursor as int, c).remove(state.cursor as int) =~= state.text);
}

} // verus!
