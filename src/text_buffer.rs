//! A persistent text buffer over a rope. Every edit hands back a new buffer
//! and leaves the one it was made from as it was.

use crate::lines::{lemma_line_bounds, line_count, line_end, line_len, line_of, line_start};
use ropey::Rope;
use vstd::prelude::*;

verus! {

/// ropey's `Rope`, carried as an opaque value; what it holds is `rope_chars`.
#[verifier::external_type_specification]
#[verifier::external_body]
pub struct ExRope(ropey::Rope);

/// The characters that a rope holds.
pub uninterp spec fn rope_chars(r: Rope) -> Seq<char>;

/// Relies on `Rope::from_str`: the rope holds the characters of `text`.
#[verifier::external_body]
fn rope_from_str(text: &str) -> (r: Rope)
    ensures
        rope_chars(r) == text@,
{
    Rope::from_str(text)
}

/// Relies on `Rope`'s derived `Clone`: the copy holds the same characters.
pub assume_specification[ <ropey::Rope as core::clone::Clone>::clone ](rope: &Rope) -> (r: Rope)
    ensures
        rope_chars(r) == rope_chars(*rope),
;

/// Relies on `Rope::len_chars`: the number of characters.
#[verifier::external_body]
fn rope_len_chars(rope: &Rope) -> (r: usize)
    ensures
        r == rope_chars(*rope).len(),
{
    rope.len_chars()
}

/// Relies on `Rope::len_lines`: one more than the number of line breaks,
/// of which, with the crate's default features off, `'\n'` is the only one.
#[verifier::external_body]
fn rope_len_lines(rope: &Rope) -> (r: usize)
    ensures
        r == line_count(rope_chars(*rope)),
{
    rope.len_lines()
}

/// Relies on `Rope::char_to_line`: the number of line breaks before the
/// offset. It panics past the end, which `requires` leaves out.
#[verifier::external_body]
fn rope_char_to_line(rope: &Rope, char_idx: usize) -> (r: usize)
    requires
        char_idx <= rope_chars(*rope).len(),
    ensures
        r == line_of(rope_chars(*rope), char_idx as int),
{
    rope.char_to_line(char_idx)
}

/// Relies on `Rope::line_to_char`: the offset at which the line starts.
#[verifier::external_body]
fn rope_line_to_char(rope: &Rope, line_idx: usize) -> (r: usize)
    requires
        line_idx < line_count(rope_chars(*rope)),
    ensures
        r == line_start(rope_chars(*rope), line_idx as nat),
{
    rope.line_to_char(line_idx)
}

/// Relies on `Rope::slice` and `From<RopeSlice> for String`: the characters
/// of the range. `slice` panics on a range that is reversed or past the end.
#[verifier::external_body]
fn rope_slice(rope: &Rope, start: usize, end: usize) -> (r: String)
    requires
        start <= end <= rope_chars(*rope).len(),
    ensures
        r@ == rope_chars(*rope).subrange(start as int, end as int),
{
    String::from(rope.slice(start..end))
}

/// Relies on `From<&Rope> for String`: all the characters.
#[verifier::external_body]
fn rope_to_string(rope: &Rope) -> (r: String)
    ensures
        r@ == rope_chars(*rope),
{
    String::from(rope)
}

/// Relies on `Rope::insert`: `text` goes in at the offset. It panics past
/// the end.
#[verifier::external_body]
fn rope_insert(rope: &mut Rope, char_idx: usize, text: &str)
    requires
        char_idx <= rope_chars(*old(rope)).len(),
    ensures
        rope_chars(*final(rope)) == inserted(rope_chars(*old(rope)), char_idx as int, text@),
{
    rope.insert(char_idx, text)
}

/// Relies on `Rope::remove`: the range goes out. It panics on a range that
/// is reversed or past the end.
#[verifier::external_body]
fn rope_remove(rope: &mut Rope, start: usize, end: usize)
    requires
        start <= end <= rope_chars(*old(rope)).len(),
    ensures
        rope_chars(*final(rope)) == removed(rope_chars(*old(rope)), start as int, end as int),
{
    rope.remove(start..end)
}

/// `t` put into `s` at offset `o`.
pub open spec fn inserted(s: Seq<char>, o: int, t: Seq<char>) -> Seq<char> {
    s.take(o) + t + s.skip(o)
}

/// `s` without the characters of `start..end`.
pub open spec fn removed(s: Seq<char>, start: int, end: int) -> Seq<char> {
    s.take(start) + s.skip(end)
}

/// An access outside the text, its lines or its columns.
#[derive(Debug, Clone, Copy, PartialEq, Eq, Structural)]
pub enum EditError {
    OutOfBounds,
}

/// A text, cheap to clone: clones share the rope's nodes.
#[derive(Clone)]
pub struct TextBuffer {
    rope: Rope,
}

impl View for TextBuffer {
    type V = Seq<char>;

    closed spec fn view(&self) -> Seq<char> {
        rope_chars(self.rope)
    }
}

impl TextBuffer {
    /// A buffer that holds `text`.
    pub fn from_str(text: &str) -> (r: TextBuffer)
        ensures
            r@ == text@,
    {
        TextBuffer { rope: rope_from_str(text) }
    }

    /// A copy of this buffer; later edits of either leave the other alone.
    pub fn snapshot(&self) -> (r: TextBuffer)
        ensures
            r@ == self@,
    {
        TextBuffer { rope: self.rope.clone() }
    }

    /// The whole text.
    pub fn text(&self) -> (r: String)
        ensures
            r@ == self@,
    {
        rope_to_string(&self.rope)
    }

    /// The number of characters.
    pub fn len_chars(&self) -> (r: usize)
        ensures
            r == self@.len(),
    {
        rope_len_chars(&self.rope)
    }

    /// The number of lines: one more than the number of `'\n'`.
    pub fn len_lines(&self) -> (r: usize)
        ensures
            r == line_count(self@),
    {
        rope_len_lines(&self.rope)
    }

    /// The line on which `offset` lies.
    pub fn char_to_line(&self, offset: usize) -> (r: Result<usize, EditError>)
        ensures
            offset <= self@.len() ==> r == Ok::<usize, EditError>(line_of(self@, offset as int) as usize),
            offset > self@.len() ==> r == Err::<usize, EditError>(EditError::OutOfBounds),
    {
        if offset <= rope_len_chars(&self.rope) {
            Ok(rope_char_to_line(&self.rope, offset))
        } else {
            Err(EditError::OutOfBounds)
        }
    }

    /// The offset at which line `row` starts.
    pub fn line_to_char(&self, row: usize) -> (r: Result<usize, EditError>)
        ensures
            row < line_count(self@) ==> r == Ok::<usize, EditError>(line_start(self@, row as nat) as usize),
            row >= line_count(self@) ==> r == Err::<usize, EditError>(EditError::OutOfBounds),
    {
        if row < rope_len_lines(&self.rope) {
            Ok(rope_line_to_char(&self.rope, row))
        } else {
            Err(EditError::OutOfBounds)
        }
    }

    /// The offsets at which line `row` starts and ends (its `'\n'`, or the
    /// end of the text).
    fn line_span(&self, row: usize) -> (r: (usize, usize))
        requires
            row < line_count(self@),
        ensures
            r.0 == line_start(self@, row as nat),
            r.1 == line_end(self@, row as nat),
            r.0 <= r.1 <= self@.len(),
    {
        proof {
            lemma_line_bounds(self@, row as nat);
        }
        let lines = rope_len_lines(&self.rope);
        let start = rope_line_to_char(&self.rope, row);
        let end = if row + 1 < lines {
            rope_line_to_char(&self.rope, row + 1) - 1
        } else {
            rope_len_chars(&self.rope)
        };
        (start, end)
    }

    /// The number of characters of line `row`, its `'\n'` left out.
    pub fn line_len(&self, row: usize) -> (r: Result<usize, EditError>)
        ensures
            row < line_count(self@) ==> r == Ok::<usize, EditError>(line_len(self@, row as nat) as usize),
            row >= line_count(self@) ==> r == Err::<usize, EditError>(EditError::OutOfBounds),
    {
        if row < rope_len_lines(&self.rope) {
            let (start, end) = self.line_span(row);
            Ok(end - start)
        } else {
            Err(EditError::OutOfBounds)
        }
    }

    /// The characters of line `row`, its `'\n'` left out.
    pub fn line(&self, row: usize) -> (r: Result<String, EditError>)
        ensures
            row < line_count(self@) ==> r is Ok && r->Ok_0@ == self@.subrange(
                line_start(self@, row as nat) as int,
                line_end(self@, row as nat),
            ),
            row >= line_count(self@) ==> r == Err::<String, EditError>(EditError::OutOfBounds),
    {
        if row < rope_len_lines(&self.rope) {
            let (start, end) = self.line_span(row);
            Ok(rope_slice(&self.rope, start, end))
        } else {
            Err(EditError::OutOfBounds)
        }
    }

    /// The characters of `start..end`.
    pub fn slice(&self, start: usize, end: usize) -> (r: Result<String, EditError>)
        ensures
            start <= end <= self@.len() ==> r is Ok && r->Ok_0@ == self@.subrange(
                start as int,
                end as int,
            ),
            !(start <= end <= self@.len()) ==> r == Err::<String, EditError>(EditError::OutOfBounds),
    {
        if start <= end && end <= rope_len_chars(&self.rope) {
            Ok(rope_slice(&self.rope, start, end))
        } else {
            Err(EditError::OutOfBounds)
        }
    }

    /// A new buffer with `text` put in at `offset`; this one is unchanged.
    pub fn insert(&self, offset: usize, text: &str) -> (r: Result<TextBuffer, EditError>)
        ensures
            offset <= self@.len() ==> r is Ok && r->Ok_0@ == inserted(self@, offset as int, text@),
            offset > self@.len() ==> r is Err && r->Err_0 == EditError::OutOfBounds,
    {
        if offset <= rope_len_chars(&self.rope) {
            let mut rope = self.rope.clone();
            rope_insert(&mut rope, offset, text);
            Ok(TextBuffer { rope })
        } else {
            Err(EditError::OutOfBounds)
        }
    }

    /// A new buffer without the characters of `start..end`; this one is
    /// unchanged.
    pub fn remove(&self, start: usize, end: usize) -> (r: Result<TextBuffer, EditError>)
        ensures
            start <= end <= self@.len() ==> r is Ok && r->Ok_0@ == removed(
                self@,
                start as int,
                end as int,
            ),
            !(start <= end <= self@.len()) ==> r is Err && r->Err_0 == EditError::OutOfBounds,
    {
        if start <= end && end <= rope_len_chars(&self.rope) {
            let mut rope = self.rope.clone();
            rope_remove(&mut rope, start, end);
            Ok(TextBuffer { rope })
        } else {
            Err(EditError::OutOfBounds)
        }
    }
}

/// An insertion adds exactly the inserted characters to the length, and a
/// removal takes away exactly the removed ones.
pub proof fn lemma_edit_lengths(s: Seq<char>, o: int, t: Seq<char>, start: int, end: int)
    requires
        0 <= o <= s.len(),
        0 <= start <= end <= s.len(),
    ensures
        inserted(s, o, t).len() == s.len() + t.len(),
        removed(s, start, end).len() == s.len() - (end - start),
{
}

} // verus!
