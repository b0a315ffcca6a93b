//! What this library takes on trust of `ropey::Rope`, the store behind every
//! text buffer: its text is a sequence of characters, edits splice that
//! sequence, and `ropey` alone decides where the lines of a text begin. Which
//! characters break a line is settled when `ropey` is built; the functions
//! below that speak of lines stand for what the `ropey` of this build
//! answers.

use vstd::prelude::*;
use ropey::Rope;

verus! {

/// `ropey::Rope`, taken as it is: nothing inside it is visible here.
#[verifier::external_type_specification]
#[verifier::external_body]
pub struct ExRope(Rope);

/// The characters that a rope holds, in order.
pub uninterp spec fn rope_text(rope: Rope) -> Seq<char>;

/// The number of lines that `ropey` counts in a text: one more than the
/// line breaks it recognises.
pub uninterp spec fn text_len_lines(text: Seq<char>) -> nat;

/// The index of the first character of line `line_idx` as `ropey` divides
/// the text; for the line one past the last, the length of the text.
pub uninterp spec fn text_line_to_char(text: Seq<char>, line_idx: nat) -> nat;

/// The index of the line that holds the character at `char_idx` as `ropey`
/// divides the text; for the index one past the end, the last line.
pub uninterp spec fn text_char_to_line(text: Seq<char>, char_idx: nat) -> nat;

/// The characters of line `line_idx` as `ropey` divides the text, its line
/// break included.
pub uninterp spec fn text_line(text: Seq<char>, line_idx: nat) -> Seq<char>;

/// `text` with `inserted` spliced in before the character at `at`.
pub open spec fn splice_in(text: Seq<char>, at: int, inserted: Seq<char>) -> Seq<char> {
    text.subrange(0, at) + inserted + text.subrange(at, text.len() as int)
}

/// `text` without the characters from `start` up to, not including, `end`.
pub open spec fn cut_out(text: Seq<char>, start: int, end: int) -> Seq<char> {
    text.subrange(0, start) + text.subrange(end, text.len() as int)
}

/// `Rope::from_str`: a rope that holds exactly the characters of `text`.
pub assume_specification[ Rope::from_str ](text: &str) -> (rope: Rope)
    ensures
        rope_text(rope) == text@,
;

/// `Rope::clone`: the clone holds the same text.
pub assume_specification[ <Rope as Clone>::clone ](rope: &Rope) -> (copy: Rope)
    ensures
        rope_text(copy) == rope_text(*rope),
;

/// `Rope::len_chars`: the number of characters held.
pub assume_specification[ Rope::len_chars ](rope: &Rope) -> (len: usize)
    ensures
        len == rope_text(*rope).len(),
;

/// `Rope::len_lines`: the number of lines, which `ropey` computes as its
/// count of line breaks plus one, so that it is never 0.
pub assume_specification[ Rope::len_lines ](rope: &Rope) -> (lines: usize)
    ensures
        lines == text_len_lines(rope_text(*rope)),
        lines >= 1,
;

/// `Rope::insert_char`: the character is spliced in at `char_idx`. It
/// panics where `char_idx` is past the end, which `requires` rules out.
pub assume_specification[ Rope::insert_char ](rope: &mut Rope, char_idx: usize, ch: char)
    requires
        char_idx <= rope_text(*old(rope)).len(),
    ensures
        rope_text(*final(rope)) == rope_text(*old(rope)).insert(char_idx as int, ch),
;

/// `Rope::insert`: the text is spliced in at `char_idx`. It panics where
/// `char_idx` is past the end, which `requires` rules out.
pub assume_specification[ Rope::insert ](rope: &mut Rope, char_idx: usize, text: &str)
    requires
        char_idx <= rope_text(*old(rope)).len(),
    ensures
        rope_text(*final(rope)) == splice_in(rope_text(*old(rope)), char_idx as int, text@),
;

/// `Rope::char_to_line`. It panics where `char_idx` is past the end, which
/// `requires` rules out.
pub assume_specification[ Rope::char_to_line ](rope: &Rope, char_idx: usize) -> (line_idx: usize)
    requires
        char_idx <= rope_text(*rope).len(),
    ensures
        line_idx == text_char_to_line(rope_text(*rope), char_idx as nat),
;

/// `Rope::line_to_char`. It panics where `line_idx` is greater than the
/// number of lines, which `requires` rules out.
pub assume_specification[ Rope::line_to_char ](rope: &Rope, line_idx: usize) -> (char_idx: usize)
    requires
        line_idx <= text_len_lines(rope_text(*rope)),
    ensures
        char_idx == text_line_to_char(rope_text(*rope), line_idx as nat),
;

/// `Rope::remove` on the range `start..end`: the characters in the range
/// leave the text. It panics where `start > end` or `end` is past the end,
/// which `requires` rules out.
#[verifier::external_body]
pub(crate) fn rope_remove(rope: &mut Rope, start: usize, end: usize)
    requires
        start <= end <= rope_text(*old(rope)).len(),
    ensures
        rope_text(*final(rope)) == cut_out(rope_text(*old(rope)), start as int, end as int),
{
    rope.remove(start..end)
}

/// `Rope::get_line`, the line handed out as a `String`: `None` exactly
/// where `line_idx` is not below the number of lines.
#[verifier::external_body]
pub(crate) fn rope_line(rope: &Rope, line_idx: usize) -> (line: Option<String>)
    ensures
        line.is_some() == (line_idx < text_len_lines(rope_text(*rope))),
        line matches Some(s) ==> s@ == text_line(rope_text(*rope), line_idx as nat),
{
    match rope.get_line(line_idx) {
        Some(slice) => Some(String::from(slice)),
        None => None,
    }
}

/// `String::from(&Rope)`: the whole text as a `String`.
#[verifier::external_body]
pub(crate) fn rope_to_string(rope: &Rope) -> (text: String)
    ensures
        text@ == rope_text(*rope),
{
    String::from(rope)
}

} // verus!
