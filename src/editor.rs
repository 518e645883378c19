//! A text editor: a buffer, a cursor over it, and highlight ranges kept per
//! editor instance.

use crate::lines::{
    lemma_line_bounds, lemma_nl_count_le_len, lemma_offset_on_line, line_count, line_len, offset_of, position_of,
    valid_position,
};
use crate::text_buffer::{inserted, removed, EditError, TextBuffer};
use std::collections::HashMap;
use vstd::prelude::*;

verus! {

broadcast use vstd::std_specs::hash::group_hash_axioms;

/// How the editable content is laid out, fixed when the editor is made.
#[derive(Debug, Clone, Copy, PartialEq, Eq, Structural)]
pub enum EditableMode {
    /// Many editors of one line each: editor instance `i` owns line `i`.
    SingleLineMultipleEditors,
    /// One editor over many lines.
    MultipleLinesSingleEditor,
}

/// A cursor position: a line and a column on it.
#[derive(Debug, Clone, Copy, PartialEq, Eq, Structural)]
pub struct Cursor {
    pub row: usize,
    pub col: usize,
}

impl Cursor {
    pub fn new(row: usize, col: usize) -> (r: Cursor)
        ensures
            r.row == row && r.col == col,
    {
        Cursor { row, col }
    }

    pub fn row(&self) -> (r: usize)
        ensures
            r == self.row,
    {
        self.row
    }

    pub fn col(&self) -> (r: usize)
        ensures
            r == self.col,
    {
        self.col
    }

    /// The position as `(row, col)`.
    pub fn as_tuple(&self) -> (r: (usize, usize))
        ensures
            r == (self.row, self.col),
    {
        (self.row, self.col)
    }
}

/// A key as the editor reads it.
#[derive(Debug, Clone, PartialEq, Eq)]
pub enum EditKey {
    /// A printable key, with the text it types.
    Character(String),
    Enter,
    Backspace,
    Delete,
    ArrowLeft,
    ArrowRight,
    ArrowUp,
    ArrowDown,
    /// Any key the editor does nothing with.
    Other,
}

/// The modifier keys held down with a key.
#[derive(Debug, Clone, Copy, PartialEq, Eq, Structural)]
pub struct Modifiers {
    /// Extends the selection: movement keeps the highlights.
    pub shift: bool,
}

/// A text buffer with one cursor and a highlight range per editor instance.
#[derive(Clone)]
pub struct RopeEditor {
    buffer: TextBuffer,
    cursor: Cursor,
    highlights: HashMap<usize, (usize, usize)>,
    mode: EditableMode,
}

impl RopeEditor {
    pub closed spec fn content(&self) -> Seq<char> {
        self.buffer@
    }

    pub closed spec fn cursor_spec(&self) -> Cursor {
        self.cursor
    }

    pub closed spec fn highlight_map(&self) -> Map<usize, (usize, usize)> {
        self.highlights@
    }

    pub closed spec fn mode_spec(&self) -> EditableMode {
        self.mode
    }

    /// The offset of the cursor in the text.
    pub open spec fn cursor_offset(&self) -> int {
        offset_of(self.content(), self.cursor_spec().row as nat, self.cursor_spec().col as nat)
    }

    /// The cursor stands at `p`, given as `(row, col)`.
    pub open spec fn cursor_at(&self, p: (nat, nat)) -> bool {
        self.cursor_spec().row == p.0 && self.cursor_spec().col == p.1
    }

    /// Every range lies within the text.
    pub open spec fn highlights_in_text(&self) -> bool {
        forall|id: usize| #[trigger]
            self.highlight_map().contains_key(id) ==> self.highlight_map()[id].0
                <= self.content().len() && self.highlight_map()[id].1 <= self.content().len()
    }

    /// The cursor addresses a position of the text, and every highlight
    /// range lies within it.
    pub open spec fn wf(&self) -> bool {
        &&& self.content().len() <= usize::MAX
        &&& valid_position(
            self.content(),
            self.cursor_spec().row as nat,
            self.cursor_spec().col as nat,
        )
        &&& self.highlights_in_text()
    }

    /// An editor over `text`, with the cursor at its start and nothing
    /// highlighted.
    pub fn from_string(text: &str, mode: EditableMode) -> (r: RopeEditor)
        ensures
            r.wf(),
            r.content() == text@,
            r.cursor_spec() == (Cursor { row: 0, col: 0 }),
            r.highlight_map() == Map::<usize, (usize, usize)>::empty(),
            r.mode_spec() == mode,
    {
        let buffer = TextBuffer::from_str(text);
        let _ = buffer.len_chars();
        proof {
            lemma_line_bounds(buffer@, 0);
        }
        RopeEditor { buffer, cursor: Cursor { row: 0, col: 0 }, highlights: HashMap::new(), mode }
    }

    /// The buffer.
    pub fn rope(&self) -> (r: &TextBuffer)
        ensures
            r@ == self.content(),
    {
        &self.buffer
    }

    /// The whole text.
    pub fn text(&self) -> (r: String)
        ensures
            r@ == self.content(),
    {
        self.buffer.text()
    }

    pub fn cursor(&self) -> (r: Cursor)
        ensures
            r == self.cursor_spec(),
    {
        self.cursor
    }

    pub fn mode(&self) -> (r: EditableMode)
        ensures
            r == self.mode_spec(),
    {
        self.mode
    }

    /// The offset of the cursor in the text.
    pub fn cursor_pos(&self) -> (r: usize)
        requires
            self.wf(),
        ensures
            r == self.cursor_offset(),
            r <= self.content().len(),
    {
        proof {
            lemma_line_bounds(self.content(), self.cursor.row as nat);
        }
        let start = self.buffer.line_to_char(self.cursor.row).unwrap();
        start + self.cursor.col
    }

    /// The highlight range of editor instance `editor_id`.
    pub fn highlights(&self, editor_id: usize) -> (r: Option<(usize, usize)>)
        ensures
            r == (if self.highlight_map().contains_key(editor_id) {
                Some(self.highlight_map()[editor_id])
            } else {
                None
            }),
    {
        match self.highlights.get(&editor_id) {
            Some(range) => Some(*range),
            None => None,
        }
    }

    /// Sets the highlight range of `editor_id` to `from..to`, in either
    /// order. An end past the text is refused and changes nothing.
    pub fn highlight_text(&mut self, from: usize, to: usize, editor_id: usize) -> (r: Result<
        (),
        EditError,
    >)
        requires
            old(self).wf(),
        ensures
            final(self).wf(),
            final(self).content() == old(self).content(),
            final(self).cursor_spec() == old(self).cursor_spec(),
            final(self).mode_spec() == old(self).mode_spec(),
            from <= old(self).content().len() && to <= old(self).content().len() ==> r is Ok
                && final(self).highlight_map() == old(self).highlight_map().insert(
                editor_id,
                (from, to),
            ),
            !(from <= old(self).content().len() && to <= old(self).content().len()) ==> r
                == Err::<(), EditError>(EditError::OutOfBounds) && final(self).highlight_map()
                == old(self).highlight_map(),
    {
        let len = self.buffer.len_chars();
        if from <= len && to <= len {
            let ghost before = self.highlight_map();
            self.highlights.insert(editor_id, (from, to));
            assert forall|id: usize| #[trigger] self.highlight_map().contains_key(id) implies self.highlight_map()[id].0
                <= len && self.highlight_map()[id].1 <= len by {
                if id != editor_id {
                    assert(before.contains_key(id));
                }
            }
            Ok(())
        } else {
            Err(EditError::OutOfBounds)
        }
    }

    /// Clears every highlight range.
    pub fn unhighlight(&mut self)
        requires
            old(self).wf(),
        ensures
            final(self).wf(),
            final(self).content() == old(self).content(),
            final(self).cursor_spec() == old(self).cursor_spec(),
            final(self).mode_spec() == old(self).mode_spec(),
            final(self).highlight_map() == Map::<usize, (usize, usize)>::empty(),
    {
        self.highlights.clear();
        assert(self.highlight_map() =~= Map::<usize, (usize, usize)>::empty());
        assert(self.highlights_in_text());
    }

    /// Moves the cursor to `(row, col)`; a position outside the text is
    /// refused and changes nothing.
    pub fn set_cursor(&mut self, row: usize, col: usize) -> (r: Result<(), EditError>)
        requires
            old(self).wf(),
        ensures
            final(self).wf(),
            final(self).content() == old(self).content(),
            final(self).highlight_map() == old(self).highlight_map(),
            final(self).mode_spec() == old(self).mode_spec(),
            valid_position(old(self).content(), row as nat, col as nat) ==> r is Ok
                && final(self).cursor_spec() == (Cursor { row, col }),
            !valid_position(old(self).content(), row as nat, col as nat) ==> r == Err::<
                (),
                EditError,
            >(EditError::OutOfBounds) && final(self).cursor_spec() == old(self).cursor_spec(),
    {
        proof {
            if row < line_count(self.content()) {
                lemma_line_bounds(self.content(), row as nat);
            }
        }
        match self.buffer.line_len(row) {
            Ok(len) => {
                if col <= len {
                    let ghost before = *self;
                    self.cursor = Cursor { row, col };
                    assert(self.highlight_map() == before.highlight_map());
                    assert(self.highlights_in_text());
                    Ok(())
                } else {
                    Err(EditError::OutOfBounds)
                }
            },
            Err(e) => Err(e),
        }
    }

    /// Moves the cursor to line `row`, keeping its column.
    pub fn set_row(&mut self, row: usize) -> (r: Result<(), EditError>)
        requires
            old(self).wf(),
        ensures
            final(self).wf(),
            final(self).content() == old(self).content(),
            final(self).highlight_map() == old(self).highlight_map(),
            final(self).mode_spec() == old(self).mode_spec(),
            final(self).cursor_spec().col == old(self).cursor_spec().col,
            valid_position(old(self).content(), row as nat, old(self).cursor_spec().col as nat)
                ==> r is Ok && final(self).cursor_spec().row == row,
            !valid_position(old(self).content(), row as nat, old(self).cursor_spec().col as nat)
                ==> r == Err::<(), EditError>(EditError::OutOfBounds) && final(self).cursor_spec()
                == old(self).cursor_spec(),
    {
        let col = self.cursor.col;
        self.set_cursor(row, col)
    }

    /// Moves the cursor to column `col` of its line.
    pub fn set_col(&mut self, col: usize) -> (r: Result<(), EditError>)
        requires
            old(self).wf(),
        ensures
            final(self).wf(),
            final(self).content() == old(self).content(),
            final(self).highlight_map() == old(self).highlight_map(),
            final(self).mode_spec() == old(self).mode_spec(),
            final(self).cursor_spec().row == old(self).cursor_spec().row,
            valid_position(old(self).content(), old(self).cursor_spec().row as nat, col as nat)
                ==> r is Ok && final(self).cursor_spec().col == col,
            !valid_position(old(self).content(), old(self).cursor_spec().row as nat, col as nat)
                ==> r == Err::<(), EditError>(EditError::OutOfBounds) && final(self).cursor_spec()
                == old(self).cursor_spec(),
    {
        let row = self.cursor.row;
        self.set_cursor(row, col)
    }

    /// Puts the cursor on offset `o`.
    fn place_at(&mut self, o: usize)
        requires
            old(self).content().len() <= usize::MAX,
            old(self).highlights_in_text(),
            o <= old(self).content().len(),
        ensures
            final(self).wf(),
            final(self).content() == old(self).content(),
            final(self).highlight_map() == old(self).highlight_map(),
            final(self).mode_spec() == old(self).mode_spec(),
            final(self).cursor_at(position_of(old(self).content(), o as int)),
    {
        proof {
            lemma_offset_on_line(self.content(), o as int);
            lemma_line_bounds(self.content(), position_of(self.content(), o as int).0);
        }
        let row = self.buffer.char_to_line(o).unwrap();
        let start = self.buffer.line_to_char(row).unwrap();
        let ghost before = *self;
        self.cursor = Cursor { row, col: o - start };
        assert(self.highlight_map() == before.highlight_map());
        assert(self.highlights_in_text());
    }

    /// Replaces the text with `buffer`, clears the highlights and puts the
    /// cursor on offset `o`.
    fn replace_text(&mut self, buffer: TextBuffer, o: usize)
        requires
            buffer@.len() <= usize::MAX,
            o <= buffer@.len(),
        ensures
            final(self).wf(),
            final(self).mode_spec() == old(self).mode_spec(),
            edited(*final(self), buffer@, o as int),
    {
        self.buffer = buffer;
        self.highlights.clear();
        assert(self.highlight_map() =~= Map::<usize, (usize, usize)>::empty());
        self.place_at(o);
    }

    /// Puts `text` in at the cursor and moves the cursor past it.
    fn type_text(&mut self, text: &str)
        requires
            old(self).wf(),
            old(self).content().len() + text@.len() <= usize::MAX,
        ensures
            final(self).wf(),
            final(self).mode_spec() == old(self).mode_spec(),
            typed(*old(self), *final(self), text@),
    {
        let o = self.cursor_pos();
        let old_len = self.buffer.len_chars();
        match self.buffer.insert(o, text) {
            Ok(buffer) => {
                let new_len = buffer.len_chars();
                self.replace_text(buffer, o + (new_len - old_len));
            },
            Err(_) => {},
        }
    }

    /// Moves the cursor to `(row, col)`, a valid position, and clears the
    /// highlights unless the selection is being extended.
    fn move_to(&mut self, row: usize, col: usize, modifiers: Modifiers)
        requires
            old(self).wf(),
            valid_position(old(self).content(), row as nat, col as nat),
        ensures
            final(self).wf(),
            final(self).mode_spec() == old(self).mode_spec(),
            moved(*old(self), *final(self), (row as nat, col as nat), modifiers),
    {
        if !modifiers.shift {
            self.unhighlight();
        }
        let _ = self.set_cursor(row, col);
    }

    /// Applies a key: a printable key or Enter types at the cursor,
    /// Backspace and Delete remove the character before or after it, and the
    /// arrows move it within the text. Typing and deleting clear the
    /// highlights, and so does a move unless `modifiers` extend the selection.
    pub fn process_key(&mut self, key: &EditKey, modifiers: Modifiers)
        requires
            old(self).wf(),
            old(self).content().len() < usize::MAX,
            key matches EditKey::Character(t) ==> old(self).content().len() + t@.len()
                <= usize::MAX,
        ensures
            final(self).wf(),
            final(self).mode_spec() == old(self).mode_spec(),
            key_effect(*old(self), *final(self), *key, modifiers),
    {
        let ghost s = self.content();
        let o = self.cursor_pos();
        let len = self.buffer.len_chars();
        let row = self.cursor.row;
        let col = self.cursor.col;
        proof {
            lemma_line_bounds(s, row as nat);
            lemma_nl_count_le_len(s);
        }
        match key {
            EditKey::Character(text) => {
                let text: &str = text.as_str();
                self.type_text(text);
            },
            EditKey::Enter => {
                proof {
                    reveal_strlit("\n");
                    assert("\n"@ =~= seq!['\n']);
                }
                self.type_text("\n");
            },
            EditKey::Backspace => {
                if o > 0 {
                    let buffer = self.buffer.remove(o - 1, o).unwrap();
                    self.replace_text(buffer, o - 1);
                }
            },
            EditKey::Delete => {
                if o < len {
                    let buffer = self.buffer.remove(o, o + 1).unwrap();
                    self.replace_text(buffer, o);
                }
            },
            EditKey::ArrowLeft => {
                if o > 0 {
                    proof {
                        lemma_offset_on_line(s, o - 1);
                    }
                    let new_row = self.buffer.char_to_line(o - 1).unwrap();
                    let start = self.buffer.line_to_char(new_row).unwrap();
                    self.move_to(new_row, o - 1 - start, modifiers);
                } else {
                    self.move_to(row, col, modifiers);
                }
            },
            EditKey::ArrowRight => {
                if o < len {
                    proof {
                        lemma_offset_on_line(s, o + 1);
                    }
                    let new_row = self.buffer.char_to_line(o + 1).unwrap();
                    let start = self.buffer.line_to_char(new_row).unwrap();
                    self.move_to(new_row, o + 1 - start, modifiers);
                } else {
                    self.move_to(row, col, modifiers);
                }
            },
            EditKey::ArrowUp => {
                if row > 0 {
                    proof {
                        lemma_line_bounds(s, (row - 1) as nat);
                    }
                    let line_len = self.buffer.line_len(row - 1).unwrap();
                    let new_col = if col <= line_len {
                        col
                    } else {
                        line_len
                    };
                    self.move_to(row - 1, new_col, modifiers);
                } else {
                    self.move_to(row, col, modifiers);
                }
            },
            EditKey::ArrowDown => {
                if row + 1 < self.buffer.len_lines() {
                    proof {
                        lemma_line_bounds(s, (row + 1) as nat);
                    }
                    let line_len = self.buffer.line_len(row + 1).unwrap();
                    let new_col = if col <= line_len {
                        col
                    } else {
                        line_len
                    };
                    self.move_to(row + 1, new_col, modifiers);
                } else {
                    self.move_to(row, col, modifiers);
                }
            },
            EditKey::Other => {},
        }
    }
}

/// `new` holds the text `t`, with the cursor on offset `o` and nothing
/// highlighted.
pub open spec fn edited(new: RopeEditor, t: Seq<char>, o: int) -> bool {
    &&& new.content() == t
    &&& new.cursor_at(position_of(t, o))
    &&& new.highlight_map() == Map::<usize, (usize, usize)>::empty()
}

/// `new` is `old` with `t` typed at the cursor, which now stands after it.
pub open spec fn typed(old: RopeEditor, new: RopeEditor, t: Seq<char>) -> bool {
    let o = old.cursor_offset();
    edited(new, inserted(old.content(), o, t), o + t.len())
}

/// `new` is `old` with the cursor moved to `p`; the highlights are cleared
/// unless the selection is being extended.
pub open spec fn moved(old: RopeEditor, new: RopeEditor, p: (nat, nat), m: Modifiers) -> bool {
    &&& new.content() == old.content()
    &&& new.cursor_at(p)
    &&& new.highlight_map() == if m.shift {
        old.highlight_map()
    } else {
        Map::<usize, (usize, usize)>::empty()
    }
}

/// `new` is `old` in every part.
pub open spec fn unchanged(old: RopeEditor, new: RopeEditor) -> bool {
    &&& new.content() == old.content()
    &&& new.cursor_spec() == old.cursor_spec()
    &&& new.highlight_map() == old.highlight_map()
}

/// The smaller of two columns.
pub open spec fn min_col(a: nat, b: int) -> nat {
    if a <= b {
        a
    } else {
        b as nat
    }
}

/// What a key does to the editor.
pub open spec fn key_effect(old: RopeEditor, new: RopeEditor, key: EditKey, m: Modifiers) -> bool {
    let s = old.content();
    let o = old.cursor_offset();
    let row = old.cursor_spec().row as nat;
    let col = old.cursor_spec().col as nat;
    match key {
        EditKey::Character(t) => typed(old, new, t@),
        EditKey::Enter => typed(old, new, seq!['\n']),
        EditKey::Backspace => if o > 0 {
            edited(new, removed(s, o - 1, o), o - 1)
        } else {
            unchanged(old, new)
        },
        EditKey::Delete => if o < s.len() {
            edited(new, removed(s, o, o + 1), o)
        } else {
            unchanged(old, new)
        },
        EditKey::ArrowLeft => moved(
            old,
            new,
            if o > 0 {
                position_of(s, o - 1)
            } else {
                (row, col)
            },
            m,
        ),
        EditKey::ArrowRight => moved(
            old,
            new,
            if o < s.len() {
                position_of(s, o + 1)
            } else {
                (row, col)
            },
            m,
        ),
        EditKey::ArrowUp => moved(
            old,
            new,
            if row > 0 {
                ((row - 1) as nat, min_col(col, line_len(s, (row - 1) as nat)))
            } else {
                (row, col)
            },
            m,
        ),
        EditKey::ArrowDown => moved(
            old,
            new,
            if row + 1 < line_count(s) {
                (row + 1, min_col(col, line_len(s, row + 1)))
            } else {
                (row, col)
            },
            m,
        ),
        EditKey::Other => unchanged(old, new),
    }
}

/// Typing, and a move without the selection being extended, leave nothing
/// highlighted; so does Backspace or Delete that removes a character.
pub proof fn lemma_plain_keys_clear_highlights(
    old: RopeEditor,
    new: RopeEditor,
    key: EditKey,
    m: Modifiers,
)
    requires
        key_effect(old, new, key, m),
        !m.shift,
        !(key is Other),
        key is Backspace ==> old.cursor_offset() > 0,
        key is Delete ==> old.cursor_offset() < old.content().len(),
    ensures
        new.highlight_map() == Map::<usize, (usize, usize)>::empty(),
{
}

} // verus!
