//! From key presses to buffer changes: what one key does to a buffer, how
//! often a key is applied under Alt and Control, and how far the view
//! scrolls with it.

use vstd::prelude::*;
use crate::rope::{cut_out, text_len_lines};
use crate::text::{EditorData, EditorDataView};

verus! {

/// A key, as far as the buffer tells keys apart.
#[derive(Clone, Copy, Debug, PartialEq, Eq, Structural)]
pub enum Key {
    Character(char),
    Enter,
    Backspace,
    ArrowUp,
    ArrowDown,
    ArrowLeft,
    ArrowRight,
    Other,
}

/// The modifier keys held down with a key.
#[derive(Clone, Copy, Debug, PartialEq, Eq, Structural)]
pub struct Modifiers {
    pub alt: bool,
    pub control: bool,
}

/// What applying a key did.
#[derive(Clone, Copy, Debug, PartialEq, Eq, Structural)]
pub enum TextEvent {
    TextChanged,
    CursorMoved,
}

/// How many lines Alt with ArrowUp or ArrowDown jumps.
pub const LINES_JUMP_ALT: usize = 5;

/// How many lines Control with ArrowUp or ArrowDown jumps.
pub const LINES_JUMP_CONTROL: usize = 3;

impl EditorDataView {
    /// The buffer after `ch` was typed: `ch` stands where the cursor was,
    /// and the cursor stands behind it. Where the cursor is on no character
    /// of the text, nothing happens.
    pub open spec fn typed(self, ch: char) -> (EditorDataView, TextEvent) {
        match self.cursor_index() {
            Some(index) => {
                (
                    self.with_text(self.text.insert(index as int, ch)).moved_to(index + 1),
                    TextEvent::TextChanged,
                )
            },
            None => (self, TextEvent::CursorMoved),
        }
    }

    /// The buffer after Backspace: the character before the cursor is gone
    /// and the cursor stands where it was. At the start of the text, or with
    /// the cursor on no character of it, nothing happens.
    pub open spec fn erased(self) -> (EditorDataView, TextEvent) {
        match self.cursor_index() {
            Some(index) => if index > 0 {
                (
                    self.with_text(cut_out(self.text, index - 1, index as int)).moved_to(
                        (index - 1) as nat,
                    ),
                    TextEvent::TextChanged,
                )
            } else {
                (self, TextEvent::CursorMoved)
            },
            None => (self, TextEvent::CursorMoved),
        }
    }

    /// The buffer after ArrowLeft (`forward` false) or ArrowRight (`forward`
    /// true): the cursor stands on the neighbouring character, if there is
    /// one.
    pub open spec fn stepped(self, forward: bool) -> EditorDataView {
        match self.cursor_index() {
            Some(index) => if forward && index < self.text.len() {
                self.moved_to(index + 1)
            } else if !forward && index > 0 {
                self.moved_to((index - 1) as nat)
            } else {
                self
            },
            None => self,
        }
    }

    /// The buffer after ArrowUp (`down` false) or ArrowDown (`down` true):
    /// the cursor stands on the neighbouring line, if there is one, at the
    /// same column or at that line's end.
    pub open spec fn line_moved(self, down: bool) -> EditorDataView {
        let row = self.cursor.row as nat;
        if down && row + 1 < text_len_lines(self.text) {
            self.with_committed_cursor(self.cursor.col as nat, row + 1)
        } else if !down && 0 < row <= text_len_lines(self.text) {
            self.with_committed_cursor(self.cursor.col as nat, (row - 1) as nat)
        } else {
            self
        }
    }

    /// The buffer after `key`, and whether the key changed the text.
    pub open spec fn key_applied(self, key: Key) -> (EditorDataView, TextEvent) {
        match key {
            Key::Character(ch) => self.typed(ch),
            Key::Enter => self.typed('\n'),
            Key::Backspace => self.erased(),
            Key::ArrowLeft => (self.stepped(false), TextEvent::CursorMoved),
            Key::ArrowRight => (self.stepped(true), TextEvent::CursorMoved),
            Key::ArrowUp => (self.line_moved(false), TextEvent::CursorMoved),
            Key::ArrowDown => (self.line_moved(true), TextEvent::CursorMoved),
            Key::Other => (self, TextEvent::CursorMoved),
        }
    }

    /// The buffer after the first `n` of `keys`, applied in order, and how
    /// many of them changed the text.
    pub open spec fn keys_applied(self, keys: Seq<Key>, n: nat) -> (EditorDataView, nat)
        decreases n,
    {
        if n == 0 || n > keys.len() {
            (self, 0)
        } else {
            let (before, changes) = self.keys_applied(keys, (n - 1) as nat);
            let (after, event) = before.key_applied(keys[n - 1]);
            (
                after,
                if event == TextEvent::TextChanged {
                    changes + 1
                } else {
                    changes
                },
            )
        }
    }

    /// The buffer after `key` was applied `n` times, and how many of the
    /// applications changed the text.
    pub open spec fn key_repeated(self, key: Key, n: nat) -> (EditorDataView, nat) {
        self.keys_applied(Seq::new(n, |i: int| key), n)
    }
}

/// No key changes the path of a buffer.
pub proof fn lemma_keys_keep_path(data: EditorDataView, keys: Seq<Key>, n: nat)
    ensures
        data.keys_applied(keys, n).0.path == data.path,
    decreases n,
{
    if n > 0 && n <= keys.len() {
        lemma_keys_keep_path(data, keys, (n - 1) as nat);
    }
}

/// How often a key press is applied: five times for ArrowUp or ArrowDown
/// with Alt, three times for them with Control and without Alt, once
/// otherwise.
pub open spec fn repeats_of(key: Key, modifiers: Modifiers) -> nat {
    if (key is ArrowUp || key is ArrowDown) && modifiers.alt {
        LINES_JUMP_ALT as nat
    } else if (key is ArrowUp || key is ArrowDown) && modifiers.control {
        LINES_JUMP_CONTROL as nat
    } else {
        1
    }
}

/// `value`, or the nearer of `low` and `high` where it lies outside them.
pub open spec fn clamped(value: int, low: int, high: int) -> int {
    if value < low {
        low
    } else if value > high {
        high
    } else {
        value
    }
}

/// The vertical scroll offset after a key press. Alt with ArrowUp scrolls
/// by `lines_jump` towards 0, Alt with ArrowDown by as much away from it,
/// and the offset stays between `min_height` and 0. No other key scrolls.
pub open spec fn scroll_after(
    key: Key,
    modifiers: Modifiers,
    scroll: int,
    lines_jump: int,
    min_height: int,
) -> int {
    if key is ArrowUp && modifiers.alt {
        clamped(scroll + lines_jump, min_height, 0)
    } else if key is ArrowDown && modifiers.alt {
        clamped(scroll - lines_jump, min_height, 0)
    } else {
        scroll
    }
}

/// What a key press did to a buffer and its view.
#[derive(Clone, Copy, Debug, PartialEq, Eq, Structural)]
pub struct KeyOutcome {
    /// How many applications of the key changed the text: as many signals
    /// are owed to whoever highlights the text.
    pub text_changes: usize,
    /// The vertical scroll offset after the key.
    pub scroll: i32,
}

/// How often a key press is applied.
pub fn key_repeats(key: Key, modifiers: Modifiers) -> (repeats: usize)
    ensures
        repeats == repeats_of(key, modifiers),
{
    let vertical = match key {
        Key::ArrowUp => true,
        Key::ArrowDown => true,
        _ => false,
    };
    if vertical && modifiers.alt {
        LINES_JUMP_ALT
    } else if vertical && modifiers.control {
        LINES_JUMP_CONTROL
    } else {
        1
    }
}

/// The vertical scroll offset after a key press.
pub fn scroll_for_key(
    key: Key,
    modifiers: Modifiers,
    scroll: i32,
    lines_jump: i32,
    min_height: i32,
) -> (after: i32)
    requires
        min_height <= 0,
    ensures
        after == scroll_after(key, modifiers, scroll as int, lines_jump as int, min_height as int),
{
    let target: i64 = match key {
        Key::ArrowUp => if modifiers.alt {
            scroll as i64 + lines_jump as i64
        } else {
            return scroll;
        },
        Key::ArrowDown => if modifiers.alt {
            scroll as i64 - lines_jump as i64
        } else {
            return scroll;
        },
        _ => {
            return scroll;
        },
    };
    if target < min_height as i64 {
        min_height
    } else if target > 0 {
        0
    } else {
        target as i32
    }
}

impl EditorData {
    /// Moves the cursor to the character at `char_idx`, if the text gives
    /// that character a row and a column.
    fn move_to(&mut self, char_idx: usize)
        ensures
            final(self)@ == old(self)@.moved_to(char_idx as nat),
    {
        match self.position_of(char_idx) {
            Some(cursor) => self.set_cursor(cursor),
            None => {},
        }
    }

    fn type_char(&mut self, ch: char) -> (event: TextEvent)
        ensures
            (final(self)@, event) == old(self)@.typed(ch),
    {
        match self.cursor_index() {
            Some(index) => {
                self.insert_char(ch, index);
                match index.checked_add(1) {
                    Some(next) => self.move_to(next),
                    None => {},
                }
                TextEvent::TextChanged
            },
            None => TextEvent::CursorMoved,
        }
    }

    fn erase(&mut self) -> (event: TextEvent)
        ensures
            (final(self)@, event) == old(self)@.erased(),
    {
        match self.cursor_index() {
            Some(index) => if index > 0 {
                self.remove(index - 1, index);
                self.move_to(index - 1);
                TextEvent::TextChanged
            } else {
                TextEvent::CursorMoved
            },
            None => TextEvent::CursorMoved,
        }
    }

    fn step(&mut self, forward: bool)
        ensures
            final(self)@ == old(self)@.stepped(forward),
    {
        match self.cursor_index() {
            Some(index) => if forward && index < self.len_chars() {
                self.move_to(index + 1);
            } else if !forward && index > 0 {
                self.move_to(index - 1);
            },
            None => {},
        }
    }

    fn move_line(&mut self, down: bool)
        ensures
            final(self)@ == old(self)@.line_moved(down),
    {
        let row = self.cursor().row;
        let col = self.cursor().col;
        let lines = self.len_lines();
        if down && row < lines && row + 1 < lines {
            self.commit_cursor(col, row + 1);
        } else if !down && 0 < row && row <= lines {
            self.commit_cursor(col, row - 1);
        }
    }

    /// Applies one key to the buffer and says whether the text changed.
    /// Whatever the key, the cursor ends up on a line of the text and not
    /// past its end.
    pub fn process_key(&mut self, key: Key) -> (event: TextEvent)
        ensures
            (final(self)@, event) == old(self)@.key_applied(key),
            final(self)@.cursor_in_range(),
    {
        let event = self.apply_key(key);
        proof {
            use_type_invariant(&*self);
        }
        event
    }

    fn apply_key(&mut self, key: Key) -> (event: TextEvent)
        ensures
            (final(self)@, event) == old(self)@.key_applied(key),
    {
        match key {
            Key::Character(ch) => self.type_char(ch),
            Key::Enter => self.type_char('\n'),
            Key::Backspace => self.erase(),
            Key::ArrowLeft => {
                self.step(false);
                TextEvent::CursorMoved
            },
            Key::ArrowRight => {
                self.step(true);
                TextEvent::CursorMoved
            },
            Key::ArrowUp => {
                self.move_line(false);
                TextEvent::CursorMoved
            },
            Key::ArrowDown => {
                self.move_line(true);
                TextEvent::CursorMoved
            },
            Key::Other => TextEvent::CursorMoved,
        }
    }

    /// Takes a key press with its modifiers: applies the key as often as
    /// the modifiers ask for, and scrolls the view as they ask for.
    pub fn key_down(
        &mut self,
        key: Key,
        modifiers: Modifiers,
        scroll: i32,
        lines_jump: i32,
        min_height: i32,
    ) -> (outcome: KeyOutcome)
        requires
            min_height <= 0,
        ensures
            (final(self)@, outcome.text_changes as nat) == old(self)@.key_repeated(
                key,
                repeats_of(key, modifiers),
            ),
            final(self)@.cursor_in_range(),
            outcome.scroll == scroll_after(
                key,
                modifiers,
                scroll as int,
                lines_jump as int,
                min_height as int,
            ),
    {
        let repeats = key_repeats(key, modifiers);
        let ghost keys = Seq::new(repeats as nat, |i: int| key);
        let mut text_changes: usize = 0;
        let mut i: usize = 0;
        while i < repeats
            invariant
                i <= repeats,
                text_changes <= i,
                keys == Seq::new(repeats as nat, |i: int| key),
                (self@, text_changes as nat) == old(self)@.keys_applied(keys, i as nat),
            decreases repeats - i,
        {
            let event = self.process_key(key);
            if event == TextEvent::TextChanged {
                text_changes += 1;
            }
            i += 1;
        }
        proof {
            use_type_invariant(&*self);
        }
        KeyOutcome { text_changes, scroll: scroll_for_key(key, modifiers, scroll, lines_jump, min_height) }
    }

    /// Applies `keys` to the buffer in order, none left out, and says how
    /// many of them changed the text.
    pub fn process_keys(&mut self, keys: &Vec<Key>) -> (changes: usize)
        ensures
            (final(self)@, changes as nat) == old(self)@.keys_applied(keys@, keys.len() as nat),
            final(self)@.cursor_in_range(),
    {
        let mut changes: usize = 0;
        let mut i: usize = 0;
        while i < keys.len()
            invariant
                i <= keys.len(),
                changes <= i,
                (self@, changes as nat) == old(self)@.keys_applied(keys@, i as nat),
            decreases keys.len() - i,
        {
            let event = self.process_key(keys[i]);
            if event == TextEvent::TextChanged {
                changes += 1;
            }
            i += 1;
        }
        proof {
            use_type_invariant(&*self);
        }
        changes
    }
}

} // verus!
