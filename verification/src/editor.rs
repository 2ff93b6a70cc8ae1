//! The live single-line editor used for command and search entry: a
//! display-only prompt, the user's text, and a cursor that always stays
//! within the text.

use vstd::prelude::*;
use crate::text::{chars_to_string, string_to_chars};

verus! {

/// State of the line editor while the user types a command or a search
/// pattern.
pub struct EditorState {
    /// Display-only prompt before the user's text.
    pub prefix: String,
    /// The user's text, one entry per character.
    pub buffer: Vec<char>,
    /// Editing position within the buffer, between zero and the buffer
    /// length inclusive.
    pub cursor_offset: usize,
}

impl EditorState {
    /// The cursor never leaves the buffer.
    pub open spec fn wf(&self) -> bool {
        self.cursor_offset <= self.buffer@.len()
    }

    /// Opens the editor with the given prompt and initial text, the cursor
    /// at the end of the text.
    pub fn begin(prefix: &str, initial: &str) -> (s: EditorState)
        ensures
            s.prefix@ == prefix@,
            s.buffer@ == initial@,
            s.cursor_offset == initial@.len(),
            s.wf(),
    {
        let buffer = string_to_chars(initial);
        let cursor_offset = buffer.len();
        EditorState { prefix: prefix.to_owned(), buffer, cursor_offset }
    }

    /// The column where user input starts: right after the prompt.
    pub fn input_start(&self) -> (c: usize)
        ensures
            c == self.prefix@.len(),
    {
        self.prefix.as_str().unicode_len()
    }

    /// Inserts a character at the cursor and advances the cursor past it.
    pub fn insert_char(&mut self, c: char)
        requires
            old(self).wf(),
        ensures
            final(self).prefix == old(self).prefix,
            final(self).buffer@ == old(self).buffer@.insert(old(self).cursor_offset as int, c),
            final(self).cursor_offset == old(self).cursor_offset + 1,
            final(self).wf(),
    {
        self.buffer.insert(self.cursor_offset, c);
        // the grown buffer's length fits in usize, so the cursor, which
        // stays at most that length, cannot overflow when it advances
        let _grown_len: usize = self.buffer.len();
        self.cursor_offset = self.cursor_offset + 1;
    }

    /// Removes the character immediately left of the cursor and moves the
    /// cursor onto its place; at the start of the text this does nothing.
    pub fn delete_before_cursor(&mut self)
        requires
            old(self).wf(),
        ensures
            final(self).prefix == old(self).prefix,
            final(self).wf(),
            old(self).cursor_offset == 0 ==> final(self).buffer@ == old(self).buffer@
                && final(self).cursor_offset == 0,
            old(self).cursor_offset > 0 ==> final(self).buffer@ == old(self).buffer@.remove(
                old(self).cursor_offset - 1,
            ) && final(self).cursor_offset == old(self).cursor_offset - 1,
    {
        if self.cursor_offset > 0 {
            self.buffer.remove(self.cursor_offset - 1);
            self.cursor_offset = self.cursor_offset - 1;
        }
    }

    /// Moves the cursor one place left, clamped to the start of the text.
    pub fn move_left(&mut self)
        requires
            old(self).wf(),
        ensures
            final(self).prefix == old(self).prefix,
            final(self).buffer == old(self).buffer,
            final(self).cursor_offset == (if old(self).cursor_offset > 0 {
                old(self).cursor_offset - 1
            } else {
                0int
            }),
            final(self).wf(),
    {
        if self.cursor_offset > 0 {
            self.cursor_offset = self.cursor_offset - 1;
        }
    }

    /// Moves the cursor one place right, clamped to the end of the text.
    pub fn move_right(&mut self)
        requires
            old(self).wf(),
        ensures
            final(self).prefix == old(self).prefix,
            final(self).buffer == old(self).buffer,
            final(self).cursor_offset == (if old(self).cursor_offset
                < old(self).buffer@.len() {
                old(self).cursor_offset + 1
            } else {
                old(self).buffer@.len() as int
            }),
            final(self).wf(),
    {
        if self.cursor_offset < self.buffer.len() {
            self.cursor_offset = self.cursor_offset + 1;
        }
    }

    /// Returns the committed text; the caller decides what it means.
    pub fn commit(&self) -> (s: String)
        ensures
            s@ == self.buffer@,
    {
        chars_to_string(&self.buffer)
    }

    /// The whole line as displayed: the prompt followed by the text.
    pub fn line_text(&self) -> (s: String)
        ensures
            s@ == self.prefix@ + self.buffer@,
    {
        let mut s = self.prefix.clone();
        let rest = chars_to_string(&self.buffer);
        s.append(rest.as_str());
        s
    }

    /// The text from the given offset on: what a renderer redraws after an
    /// insertion, instead of the whole line.
    pub fn suffix_from(&self, k: usize) -> (s: String)
        requires
            k <= self.buffer@.len(),
        ensures
            s@ == self.buffer@.skip(k as int),
    {
        let mut chars: Vec<char> = Vec::new();
        let mut i: usize = k;
        while i < self.buffer.len()
            invariant
                k <= i <= self.buffer@.len(),
                chars@ == self.buffer@.subrange(k as int, i as int),
            decreases self.buffer@.len() - i,
        {
            chars.push(self.buffer[i]);
            i = i + 1;
            proof {
                assert(chars@ =~= self.buffer@.subrange(k as int, i as int));
            }
        }
        proof {
            assert(chars@ =~= self.buffer@.skip(k as int));
        }
        chars_to_string(&chars)
    }
}

/// Law: inserting a character at the cursor and then deleting before the
/// advanced cursor returns buffer and cursor to their prior values, for
/// every valid starting cursor position. The two steps are exactly what
/// `insert_char` followed by `delete_before_cursor` do to the editor.
pub proof fn lemma_insert_then_delete_round_trip(buffer: Seq<char>, cursor: int, c: char)
    requires
        0 <= cursor <= buffer.len(),
    ensures
        buffer.insert(cursor, c).remove((cursor + 1) - 1) == buffer,
        (cursor + 1) - 1 == cursor,
{
    assert(buffer.insert(cursor, c).remove(cursor) =~= buffer);
}

/// Removes the character left of an absolute cursor column and reports the
/// new column; at the input start this does nothing. Columns are absolute:
/// the input starts at `cursor_start_position`, right after the prompt.
pub fn delete_previous_character(
    input: &mut Vec<char>,
    cursor_position: u16,
    cursor_start_position: u16,
) -> (new_pos: u16)
    requires
        cursor_start_position <= cursor_position,
        cursor_position as int <= cursor_start_position as int + old(input)@.len(),
    ensures
        cursor_position == cursor_start_position ==> final(input)@ == old(input)@ && new_pos
            == cursor_position,
        cursor_position > cursor_start_position ==> final(input)@ == old(input)@.remove(
            cursor_position as int - cursor_start_position as int - 1,
        ) && new_pos == cursor_position - 1,
{
    if cursor_position > cursor_start_position {
        let new_position = cursor_position - 1;
        input.remove((new_position - cursor_start_position) as usize);
        return new_position;
    }
    cursor_position
}

/// The cursor column after moving left while inputting, clamped to the
/// input start.
pub fn navigate_left_input(cursor_position: u16, cursor_start_position: u16) -> (new_pos: u16)
    ensures
        cursor_position > cursor_start_position ==> new_pos == cursor_position - 1,
        cursor_position <= cursor_start_position ==> new_pos == cursor_position,
{
    if cursor_position > cursor_start_position {
        cursor_position - 1
    } else {
        cursor_position
    }
}

/// The cursor column after moving right while inputting, clamped to the
/// end of the input text.
pub fn navigate_right_input(
    input: &Vec<char>,
    cursor_position: u16,
    cursor_start_position: u16,
) -> (new_pos: u16)
    requires
        cursor_start_position <= cursor_position,
        cursor_position as int <= cursor_start_position as int + input@.len(),
        cursor_start_position as int + input@.len() <= u16::MAX,
    ensures
        (cursor_position as int) < cursor_start_position as int + input@.len() ==> new_pos
            == cursor_position + 1,
        cursor_position as int >= cursor_start_position as int + input@.len() ==> new_pos
            == cursor_position,
{
    if (cursor_position as usize) < cursor_start_position as usize + input.len() {
        cursor_position + 1
    } else {
        cursor_position
    }
}

} // verus!
