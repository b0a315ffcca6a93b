//! A text buffer with its cursor: the text lives in a rope, the cursor is a
//! row and a column, and every operation says what it does to both.

use vstd::prelude::*;
use ropey::Rope;
use crate::rope::{
    cut_out, rope_line, rope_remove, rope_text, rope_to_string, splice_in, text_char_to_line,
    text_len_lines, text_line, text_line_to_char,
};

verus! {

/// A position in a text: a row (line index) and a column (character index
/// within that line).
#[derive(Clone, Copy, Debug, PartialEq, Eq, Structural)]
pub struct TextCursor {
    pub row: usize,
    pub col: usize,
}

impl TextCursor {
    /// The row.
    pub open spec fn spec_row(&self) -> usize {
        self.row
    }

    /// The column.
    pub open spec fn spec_col(&self) -> usize {
        self.col
    }

    /// A cursor at `row` and `col`.
    pub fn new(row: usize, col: usize) -> (cursor: Self)
        ensures
            cursor == (TextCursor { row, col }),
    {
        TextCursor { row, col }
    }

    /// The row.
    #[verifier::when_used_as_spec(spec_row)]
    pub fn row(&self) -> (row: usize)
        ensures
            row == self.row,
    {
        self.row
    }

    /// The column.
    #[verifier::when_used_as_spec(spec_col)]
    pub fn col(&self) -> (col: usize)
        ensures
            col == self.col,
    {
        self.col
    }

    /// Puts the cursor on the row `row`.
    pub fn set_row(&mut self, row: usize)
        ensures
            *final(self) == (TextCursor { row, col: old(self).col }),
    {
        self.row = row;
    }

    /// Puts the cursor at the column `col`.
    pub fn set_col(&mut self, col: usize)
        ensures
            *final(self) == (TextCursor { row: old(self).row, col }),
    {
        self.col = col;
    }

    /// The cursor as a pair, column first.
    pub fn as_tuple(&self) -> (pair: (usize, usize))
        ensures
            pair == (self.col, self.row),
    {
        (self.col, self.row)
    }
}

/// Mathematical model of an `EditorData`.
pub struct EditorDataView {
    pub path: Seq<char>,
    pub text: Seq<char>,
    pub cursor: TextCursor,
    /// Whether the text was edited since the buffer was made or last marked
    /// as saved.
    pub edited: bool,
}

impl EditorDataView {
    /// The number of characters in line `row`, its line break included.
    pub open spec fn line_len(self, row: nat) -> nat {
        text_line(self.text, row).len()
    }

    /// Whether the cursor lies on a line of the text and not past that
    /// line's end.
    pub open spec fn cursor_in_range(self) -> bool {
        in_range(self.text, self.cursor)
    }

    /// This buffer with the cursor brought into range: onto the last line
    /// where it lies below the text, and onto the end of its line where it
    /// lies past it.
    pub open spec fn clamped(self) -> EditorDataView {
        EditorDataView { cursor: clamped_cursor(self.text, self.cursor), ..self }
    }

    /// This buffer with the cursor at `cursor`, brought into range.
    pub open spec fn with_cursor(self, cursor: TextCursor) -> EditorDataView {
        EditorDataView { cursor, ..self }.clamped()
    }

    /// This buffer with `text` as its text, noted as edited, the cursor
    /// brought into range.
    pub open spec fn with_text(self, text: Seq<char>) -> EditorDataView {
        EditorDataView { text, edited: true, ..self }.clamped()
    }

    /// This buffer with the cursor on the character at `char_idx`, or as
    /// it is where the text gives that character no row and column.
    pub open spec fn moved_to(self, char_idx: nat) -> EditorDataView {
        match text_position(self.text, char_idx) {
            Some((row, col)) => self.with_cursor(
                TextCursor { row: row as usize, col: col as usize },
            ),
            None => self,
        }
    }

    /// This buffer after a click was measured at column `col` of line
    /// `row`: the cursor is there, the column clamped to the line.
    pub open spec fn with_committed_cursor(self, col: nat, row: nat) -> EditorDataView {
        EditorDataView {
            cursor: TextCursor { row: row as usize, col: self.clamped_col(col, row) as usize },
            ..self
        }
    }

    /// The column that a measured column `col` is committed as on line
    /// `row`: `col` itself, or the line's length where `col` lies past it.
    pub open spec fn clamped_col(self, col: nat, row: nat) -> nat {
        if col >= self.line_len(row) {
            self.line_len(row)
        } else {
            col
        }
    }

    /// The index in the text of the character under the cursor: the start
    /// of the cursor's line plus the column. `None` where the text has no
    /// such line or the sum lies past the end of the text.
    pub open spec fn cursor_index(self) -> Option<nat> {
        let row = self.cursor.row as nat;
        if row <= text_len_lines(self.text) && text_line_to_char(self.text, row)
            + self.cursor.col <= self.text.len() {
            Some(text_line_to_char(self.text, row) + self.cursor.col as nat)
        } else {
            None
        }
    }
}

/// `cursor` brought into the range of `text`: onto the last line where it
/// lies below the text, and onto the end of its line where it lies past it.
pub open spec fn clamped_cursor(text: Seq<char>, cursor: TextCursor) -> TextCursor {
    let lines = text_len_lines(text);
    if lines == 0 {
        cursor
    } else {
        let row = if cursor.row < lines {
            cursor.row as nat
        } else {
            (lines - 1) as nat
        };
        let line_len = text_line(text, row).len();
        let col = if cursor.col >= line_len {
            line_len
        } else {
            cursor.col as nat
        };
        TextCursor { row: row as usize, col: col as usize }
    }
}

/// Whether `cursor` lies on a line of `text` and not past that line's end.
pub open spec fn in_range(text: Seq<char>, cursor: TextCursor) -> bool {
    &&& cursor.row < text_len_lines(text)
    &&& cursor.col <= text_line(text, cursor.row as nat).len()
}

/// The row and column of the character at `char_idx` of `text`: the line
/// that holds it, and its distance from that line's start. `None` where the
/// line structure gives no such pair or its numbers do not fit in `usize`.
pub open spec fn text_position(text: Seq<char>, char_idx: nat) -> Option<(nat, nat)> {
    let row = text_char_to_line(text, char_idx);
    if char_idx <= text.len() && row <= text_len_lines(text) && row <= usize::MAX
        && text_line_to_char(text, row) <= char_idx && char_idx <= usize::MAX {
        Some((row, (char_idx - text_line_to_char(text, row)) as nat))
    } else {
        None
    }
}

/// What a measured position is committed as. The cursor goes to the
/// measured row, at the smaller of the measured column and the length of
/// that line. Where this is where the cursor was, the buffer is unchanged,
/// so that nobody is owed a notification. Committing the same position
/// again changes nothing.
pub proof fn lemma_committed_cursor(data: EditorDataView, col: usize, row: usize)
    ensures
        ({
            let committed = data.with_committed_cursor(col as nat, row as nat);
            let line_len = data.line_len(row as nat);
            &&& committed.cursor.row == row
            &&& committed.cursor.col == if col <= line_len {
                col as nat
            } else {
                line_len
            }
            &&& committed.text == data.text
            &&& committed.cursor == data.cursor ==> committed == data
            &&& committed.with_committed_cursor(col as nat, row as nat) == committed
            &&& row < text_len_lines(data.text) ==> committed.cursor_in_range()
        }),
{
}

/// The cursor `cursor` brought into the range of the text of `rope`.
fn cursor_in(rope: &Rope, cursor: TextCursor) -> (clamped: TextCursor)
    ensures
        clamped == clamped_cursor(rope_text(*rope), cursor),
        in_range(rope_text(*rope), clamped),
{
    let lines = rope.len_lines();
    let row = if cursor.row < lines {
        cursor.row
    } else {
        lines - 1
    };
    let len = match rope_line(rope, row) {
        Some(line) => line.as_str().unicode_len(),
        None => 0,
    };
    let col = if cursor.col >= len {
        len
    } else {
        cursor.col
    };
    TextCursor { row, col }
}

/// An open file: its path, its text and the cursor in it.
pub struct EditorData {
    cursor: TextCursor,
    rope: Rope,
    path: String,
    edited: bool,
}

impl EditorData {
    /// The cursor is always on a line of the text and not past its end.
    #[verifier::type_invariant]
    pub open spec fn cursor_is_in_range(self) -> bool {
        self@.cursor_in_range()
    }
}

impl View for EditorData {
    type V = EditorDataView;

    closed spec fn view(&self) -> EditorDataView {
        EditorDataView {
            path: self.path@,
            text: rope_text(self.rope),
            cursor: self.cursor,
            edited: self.edited,
        }
    }
}

impl Clone for EditorData {
    fn clone(&self) -> (copy: Self)
        ensures
            copy@ == self@,
    {
        proof {
            use_type_invariant(self);
        }
        EditorData {
            cursor: self.cursor,
            rope: self.rope.clone(),
            path: self.path.clone(),
            edited: self.edited,
        }
    }
}

impl EditorData {
    /// A buffer for the file at `path` that holds the text of `rope`, with
    /// the cursor at `cursor`, given as row and column, or as near to it
    /// as the text reaches.
    pub fn new(path: String, rope: Rope, cursor: (usize, usize)) -> (editor: Self)
        ensures
            editor@ == (EditorDataView {
                path: path@,
                text: rope_text(rope),
                cursor: TextCursor { row: cursor.0, col: cursor.1 },
                edited: false,
            }).clamped(),
            editor@.cursor_in_range(),
    {
        let cursor = cursor_in(&rope, TextCursor { row: cursor.0, col: cursor.1 });
        EditorData { path, rope, cursor, edited: false }
    }

    /// A buffer for the file at `path` that holds `text`, with the cursor
    /// at the start.
    pub fn from_text(path: String, text: &str) -> (editor: Self)
        ensures
            editor@ == (EditorDataView {
                path: path@,
                text: text@,
                cursor: TextCursor { row: 0, col: 0 },
                edited: false,
            }),
            editor@.cursor_in_range(),
    {
        let rope = Rope::from_str(text);
        let cursor = cursor_in(&rope, TextCursor { row: 0, col: 0 });
        EditorData { path, rope, cursor, edited: false }
    }

    /// The path of the file.
    pub fn path(&self) -> (path: &String)
        ensures
            path@ == self@.path,
    {
        &self.path
    }

    /// The cursor. It is always in range.
    pub fn cursor(&self) -> (cursor: &TextCursor)
        ensures
            *cursor == self@.cursor,
            self@.cursor_in_range(),
    {
        proof {
            use_type_invariant(self);
        }
        &self.cursor
    }

    /// The rope that holds the text.
    pub fn rope(&self) -> (rope: &Rope)
        ensures
            rope_text(*rope) == self@.text,
    {
        &self.rope
    }

    /// The whole text.
    pub fn text(&self) -> (text: String)
        ensures
            text@ == self@.text,
    {
        rope_to_string(&self.rope)
    }

    /// Puts the cursor at `cursor`, or as near to it as the text reaches.
    pub fn set_cursor(&mut self, cursor: TextCursor)
        ensures
            final(self)@ == old(self)@.with_cursor(cursor),
            final(self)@.cursor_in_range(),
    {
        self.cursor = cursor_in(&self.rope, cursor);
    }

    /// The number of characters in the text.
    pub fn len_chars(&self) -> (len: usize)
        ensures
            len == self@.text.len(),
    {
        self.rope.len_chars()
    }

    /// The number of lines in the text, never 0.
    pub fn len_lines(&self) -> (lines: usize)
        ensures
            lines == text_len_lines(self@.text),
            lines >= 1,
    {
        self.rope.len_lines()
    }

    /// Whether the text was edited since the buffer was made or last marked
    /// as saved.
    pub fn is_edited(&self) -> (edited: bool)
        ensures
            edited == self@.edited,
    {
        self.edited
    }

    /// Notes that the text is now what is on disk.
    pub fn mark_saved(&mut self)
        ensures
            final(self)@ == (EditorDataView { edited: false, ..old(self)@ }),
    {
        proof {
            use_type_invariant(&*self);
        }
        self.edited = false;
    }

    /// Takes the buffer out for a change, leaving an empty one in its
    /// place until the changed buffer is put back.
    fn take(&mut self) -> (taken: Self)
        ensures
            taken@ == old(self)@,
    {
        let rope = Rope::from_str("");
        let cursor = cursor_in(&rope, TextCursor { row: 0, col: 0 });
        let mut taken = EditorData { cursor, rope, path: String::new(), edited: false };
        core::mem::swap(self, &mut taken);
        taken
    }

    /// Splices `ch` into the text before the character at `char_idx`. The
    /// cursor stays where it is if the text still reaches there.
    pub fn insert_char(&mut self, ch: char, char_idx: usize)
        requires
            char_idx <= old(self)@.text.len(),
        ensures
            final(self)@ == old(self)@.with_text(old(self)@.text.insert(char_idx as int, ch)),
            final(self)@.cursor_in_range(),
    {
        let EditorData { cursor, mut rope, path, edited: _ } = self.take();
        rope.insert_char(char_idx, ch);
        let cursor = cursor_in(&rope, cursor);
        *self = EditorData { cursor, rope, path, edited: true };
    }

    /// Splices `value` into the text before the character at `char_idx`.
    /// The cursor stays where it is if the text still reaches there.
    pub fn insert(&mut self, value: &str, char_idx: usize)
        requires
            char_idx <= old(self)@.text.len(),
        ensures
            final(self)@ == old(self)@.with_text(
                splice_in(old(self)@.text, char_idx as int, value@),
            ),
            final(self)@.cursor_in_range(),
    {
        let EditorData { cursor, mut rope, path, edited: _ } = self.take();
        rope.insert(char_idx, value);
        let cursor = cursor_in(&rope, cursor);
        *self = EditorData { cursor, rope, path, edited: true };
    }

    /// Takes the characters from `start` up to, not including, `end` out of
    /// the text. The cursor stays where it is if the text still reaches
    /// there.
    pub fn remove(&mut self, start: usize, end: usize)
        requires
            start <= end <= old(self)@.text.len(),
        ensures
            final(self)@ == old(self)@.with_text(
                cut_out(old(self)@.text, start as int, end as int),
            ),
            final(self)@.cursor_in_range(),
    {
        let EditorData { cursor, mut rope, path, edited: _ } = self.take();
        rope_remove(&mut rope, start, end);
        let cursor = cursor_in(&rope, cursor);
        *self = EditorData { cursor, rope, path, edited: true };
    }

    /// The line that holds the character at `char_idx`.
    pub fn char_to_line(&self, char_idx: usize) -> (line_idx: usize)
        requires
            char_idx <= self@.text.len(),
        ensures
            line_idx == text_char_to_line(self@.text, char_idx as nat),
    {
        self.rope.char_to_line(char_idx)
    }

    /// The index of the first character of line `line_idx`.
    pub fn line_to_char(&self, line_idx: usize) -> (char_idx: usize)
        requires
            line_idx <= text_len_lines(self@.text),
        ensures
            char_idx == text_line_to_char(self@.text, line_idx as nat),
    {
        self.rope.line_to_char(line_idx)
    }

    /// The text of line `line_idx`, or `None` where the text has no such
    /// line.
    pub fn line(&self, line_idx: usize) -> (line: Option<String>)
        ensures
            line.is_some() == (line_idx < text_len_lines(self@.text)),
            line matches Some(s) ==> s@ == text_line(self@.text, line_idx as nat),
    {
        rope_line(&self.rope, line_idx)
    }

    /// The index in the text of the character under the cursor.
    pub fn cursor_index(&self) -> (index: Option<usize>)
        ensures
            index.is_some() == self@.cursor_index().is_some(),
            index matches Some(i) ==> i == self@.cursor_index().unwrap(),
    {
        if self.cursor.row > self.rope.len_lines() {
            return None;
        }
        let start = self.rope.line_to_char(self.cursor.row);
        let len = self.rope.len_chars();
        match start.checked_add(self.cursor.col) {
            Some(index) => if index <= len {
                Some(index)
            } else {
                None
            },
            None => None,
        }
    }

    /// The cursor that stands on the character at `char_idx`.
    pub fn position_of(&self, char_idx: usize) -> (cursor: Option<TextCursor>)
        ensures
            cursor.is_some() == text_position(self@.text, char_idx as nat).is_some(),
            cursor matches Some(c) ==> (c.row as nat, c.col as nat) == text_position(
                self@.text,
                char_idx as nat,
            ).unwrap(),
    {
        if char_idx > self.rope.len_chars() {
            return None;
        }
        let row = self.rope.char_to_line(char_idx);
        if row > self.rope.len_lines() {
            return None;
        }
        let start = self.rope.line_to_char(row);
        if start > char_idx {
            return None;
        }
        Some(TextCursor::new(row, char_idx - start))
    }

    /// Commits the position that was measured for a click: the cursor goes
    /// to line `row`, at column `col` or at the line's end where `col` lies
    /// past it. Says whether the cursor moved.
    pub fn commit_cursor(&mut self, col: usize, row: usize) -> (changed: bool)
        requires
            row < text_len_lines(old(self)@.text),
        ensures
            final(self)@ == old(self)@.with_committed_cursor(col as nat, row as nat),
            changed == (final(self)@.cursor != old(self)@.cursor),
            final(self)@.cursor_in_range(),
    {
        let line_len = match self.line_len(row) {
            Some(len) => len,
            None => 0,
        };
        let new_col = if col >= line_len {
            line_len
        } else {
            col
        };
        if self.cursor.col != new_col || self.cursor.row != row {
            self.cursor = TextCursor { row, col: new_col };
            true
        } else {
            false
        }
    }

    /// Commits a measured position if the text has a line `row`. `None`
    /// where it has none: the buffer then stays as it is.
    pub fn try_commit_cursor(&mut self, col: usize, row: usize) -> (changed: Option<bool>)
        ensures
            changed.is_some() == (row < text_len_lines(old(self)@.text)),
            changed.is_none() ==> final(self)@ == old(self)@,
            changed matches Some(moved) ==> {
                &&& final(self)@ == old(self)@.with_committed_cursor(col as nat, row as nat)
                &&& moved == (final(self)@.cursor != old(self)@.cursor)
                &&& final(self)@.cursor_in_range()
            },
    {
        if row < self.rope.len_lines() {
            Some(self.commit_cursor(col, row))
        } else {
            None
        }
    }

    /// The lines of the text, in order.
    pub fn lines(&self) -> (lines: Vec<String>)
        ensures
            lines.len() == text_len_lines(self@.text),
            forall|i: int| 0 <= i < lines.len() ==> lines[i]@ == text_line(self@.text, i as nat),
    {
        let count = self.rope.len_lines();
        let mut lines: Vec<String> = Vec::new();
        let mut i: usize = 0;
        while i < count
            invariant
                i <= count,
                count == text_len_lines(self@.text),
                lines.len() == i,
                forall|j: int| 0 <= j < i ==> lines[j]@ == text_line(self@.text, j as nat),
            decreases count - i,
        {
            match rope_line(&self.rope, i) {
                Some(line) => lines.push(line),
                None => {},
            }
            i += 1;
        }
        lines
    }

    /// The number of characters in line `line_idx`, or `None` where the
    /// text has no such line.
    pub fn line_len(&self, line_idx: usize) -> (len: Option<usize>)
        ensures
            len.is_some() == (line_idx < text_len_lines(self@.text)),
            len matches Some(n) ==> n == self@.line_len(line_idx as nat),
    {
        match rope_line(&self.rope, line_idx) {
            Some(line) => Some(line.as_str().unicode_len()),
            None => None,
        }
    }
}

} // verus!
