//! An editing session: pointer events ask a layout engine to resolve
//! coordinates through a shared request cell, and the engine's answers are
//! mapped onto the editor's cursor and highlights.

use crate::editor::{Cursor, EditableMode, RopeEditor};
use crate::lines::{
    lemma_line_bounds, lemma_offset_on_line, line_count, line_len, position_of, valid_position,
};
use vstd::prelude::*;

verus! {

/// A pointer event on an editor instance, with the coordinates of type `P`
/// at which it happened.
pub enum EditableEvent<P> {
    Click,
    MouseOver(P, usize),
    MouseDown(P, usize),
}

/// What the layout engine answers once it has resolved a request.
#[derive(Debug, Clone, Copy, PartialEq, Eq, Structural)]
pub enum CursorLayoutResponse {
    /// A point was resolved to `position`, in editor instance `id`.
    CursorPosition { position: usize, id: usize },
    /// A drag was resolved to the range `from..to`, in editor instance `id`.
    TextSelection { from: usize, to: usize, id: usize },
}

/// The requests that wait for the layout engine: a point to resolve, the
/// editor instance it concerns, and a dragged range to resolve. Each write
/// replaces the last; the engine takes a request, which clears it.
pub struct CursorReference<P> {
    pub cursor_position: Option<P>,
    pub id: Option<usize>,
    pub cursor_selections: Option<(P, P)>,
}

impl<P> CursorReference<P> {
    /// No request pending.
    pub fn new() -> (r: CursorReference<P>)
        ensures
            r.cursor_position is None,
            r.id is None,
            r.cursor_selections is None,
    {
        CursorReference { cursor_position: None, id: None, cursor_selections: None }
    }

    pub fn set_cursor_position(&mut self, position: Option<P>)
        ensures
            final(self).cursor_position == position,
            final(self).id == old(self).id,
            final(self).cursor_selections == old(self).cursor_selections,
    {
        self.cursor_position = position;
    }

    pub fn set_id(&mut self, id: Option<usize>)
        ensures
            final(self).id == id,
            final(self).cursor_position == old(self).cursor_position,
            final(self).cursor_selections == old(self).cursor_selections,
    {
        self.id = id;
    }

    pub fn set_cursor_selections(&mut self, selections: Option<(P, P)>)
        ensures
            final(self).cursor_selections == selections,
            final(self).cursor_position == old(self).cursor_position,
            final(self).id == old(self).id,
    {
        self.cursor_selections = selections;
    }

    /// Takes the point to resolve, leaving none.
    pub fn take_cursor_position(&mut self) -> (r: Option<P>)
        ensures
            r == old(self).cursor_position,
            final(self).cursor_position is None,
            final(self).id == old(self).id,
            final(self).cursor_selections == old(self).cursor_selections,
    {
        self.cursor_position.take()
    }

    /// Takes the dragged range to resolve, leaving none.
    pub fn take_cursor_selections(&mut self) -> (r: Option<(P, P)>)
        ensures
            r == old(self).cursor_selections,
            final(self).cursor_selections is None,
            final(self).cursor_position == old(self).cursor_position,
            final(self).id == old(self).id,
    {
        self.cursor_selections.take()
    }
}

/// Where a resolved `position` in editor instance `id` puts the cursor of a
/// text `s`, or `None` where it lies outside the text. With one editor the
/// position is an offset into the whole text; with one editor per line, `id`
/// is the line and `position` the column, held to the end of that line.
pub open spec fn resolved(s: Seq<char>, mode: EditableMode, position: int, id: int) -> Option<
    (nat, nat),
> {
    match mode {
        EditableMode::MultipleLinesSingleEditor => if 0 <= position <= s.len() {
            Some(position_of(s, position))
        } else {
            None
        },
        EditableMode::SingleLineMultipleEditors => if 0 <= id < line_count(s) {
            Some(
                (
                    id as nat,
                    if position < line_len(s, id as nat) {
                        position as nat
                    } else {
                        line_len(s, id as nat) as nat
                    },
                ),
            )
        } else {
            None
        },
    }
}

/// Maps a layout answer to a cursor position, by the editor's mode.
pub fn resolve_cursor(editor: &RopeEditor, position: usize, id: usize) -> (r: Option<Cursor>)
    requires
        editor.wf(),
    ensures
        r matches Some(c) ==> resolved(editor.content(), editor.mode_spec(), position as int, id as int)
            == Some((c.row as nat, c.col as nat)),
        r is None ==> resolved(editor.content(), editor.mode_spec(), position as int, id as int)
            is None,
        r matches Some(c) ==> valid_position(editor.content(), c.row as nat, c.col as nat),
{
    let buffer = editor.rope();
    let ghost s = editor.content();
    match editor.mode() {
        EditableMode::MultipleLinesSingleEditor => {
            if position <= buffer.len_chars() {
                proof {
                    lemma_offset_on_line(s, position as int);
                }
                let row = buffer.char_to_line(position).unwrap();
                let start = buffer.line_to_char(row).unwrap();
                Some(Cursor { row, col: position - start })
            } else {
                None
            }
        },
        EditableMode::SingleLineMultipleEditors => {
            if id < buffer.len_lines() {
                proof {
                    lemma_line_bounds(s, id as nat);
                }
                let len = buffer.line_len(id).unwrap();
                let col = if position < len {
                    position
                } else {
                    len
                };
                Some(Cursor { row: id, col })
            } else {
                None
            }
        },
    }
}

/// Applies an answer of the layout engine, then clears the pending
/// requests so the engine does not resolve them again. A resolved position
/// moves the cursor there and clears the highlights, unless the cursor is
/// there already; a resolved range becomes the highlight of its editor
/// instance. An answer that names no place in the text changes nothing.
pub fn apply_layout_response<P>(
    editor: &mut RopeEditor,
    requests: &mut CursorReference<P>,
    response: CursorLayoutResponse,
)
    requires
        old(editor).wf(),
    ensures
        final(editor).wf(),
        final(editor).mode_spec() == old(editor).mode_spec(),
        final(editor).content() == old(editor).content(),
        final(requests).cursor_position is None,
        final(requests).cursor_selections is None,
        final(requests).id == old(requests).id,
        match response {
            CursorLayoutResponse::CursorPosition { position, id } => match resolved(
                old(editor).content(),
                old(editor).mode_spec(),
                position as int,
                id as int,
            ) {
                Some(p) => if old(editor).cursor_at(p) {
                    final(editor).cursor_spec() == old(editor).cursor_spec()
                        && final(editor).highlight_map() == old(editor).highlight_map()
                } else {
                    final(editor).cursor_at(p) && final(editor).highlight_map() == Map::<
                        usize,
                        (usize, usize),
                    >::empty()
                },
                None => final(editor).cursor_spec() == old(editor).cursor_spec()
                    && final(editor).highlight_map() == old(editor).highlight_map(),
            },
            CursorLayoutResponse::TextSelection { from, to, id } => {
                &&& final(editor).cursor_spec() == old(editor).cursor_spec()
                &&& final(editor).highlight_map() == if selection_applies(
                    old(editor).content(),
                    old(editor).mode_spec(),
                    from as int,
                    to as int,
                    id as int,
                ) {
                    old(editor).highlight_map().insert(id, (from, to))
                } else {
                    old(editor).highlight_map()
                }
            },
        },
{
    match response {
        CursorLayoutResponse::CursorPosition { position, id } => {
            if let Some(cursor) = resolve_cursor(editor, position, id) {
                if editor.cursor() != cursor {
                    let _ = editor.set_cursor(cursor.row, cursor.col);
                    editor.unhighlight();
                }
            }
        },
        CursorLayoutResponse::TextSelection { from, to, id } => {
            let known_id = match editor.mode() {
                EditableMode::SingleLineMultipleEditors => id < editor.rope().len_lines(),
                EditableMode::MultipleLinesSingleEditor => true,
            };
            if known_id {
                let _ = editor.highlight_text(from, to, id);
            }
        },
    }
    requests.set_cursor_position(None);
    requests.set_cursor_selections(None);
}

/// A resolved range is kept where it lies within the text and, with one
/// editor per line, its editor instance owns a line.
pub open spec fn selection_applies(
    s: Seq<char>,
    mode: EditableMode,
    from: int,
    to: int,
    id: int,
) -> bool {
    &&& from <= s.len()
    &&& to <= s.len()
    &&& (mode == EditableMode::SingleLineMultipleEditors ==> id < line_count(s))
}

/// The pointer side of a session: where a drag started, if one is going on.
pub struct EditableSession<P> {
    pub dragging: Option<P>,
}

impl<P: Copy> EditableSession<P> {
    /// No drag going on.
    pub fn new() -> (r: EditableSession<P>)
        ensures
            r.dragging is None,
    {
        EditableSession { dragging: None }
    }

    /// Handles a pointer event, and tells whether a drag is going on, in
    /// which case the host should lay the content out again. A press starts
    /// a drag, asks for its point to be resolved in its editor instance and
    /// clears the highlights; a move during a drag asks for the range from
    /// the drag's start to be resolved; a click ends the drag and keeps the
    /// highlights.
    pub fn on_pointer(
        &mut self,
        event: EditableEvent<P>,
        editor: &mut RopeEditor,
        requests: &mut CursorReference<P>,
    ) -> (relayout: bool)
        requires
            old(editor).wf(),
        ensures
            final(editor).wf(),
            final(editor).content() == old(editor).content(),
            final(editor).cursor_spec() == old(editor).cursor_spec(),
            final(editor).mode_spec() == old(editor).mode_spec(),
            relayout == final(self).dragging is Some,
            match event {
                EditableEvent::MouseDown(p, id) => {
                    &&& final(self).dragging == Some(p)
                    &&& final(requests).cursor_position == Some(p)
                    &&& final(requests).id == Some(id)
                    &&& final(requests).cursor_selections == old(requests).cursor_selections
                    &&& final(editor).highlight_map() == Map::<usize, (usize, usize)>::empty()
                },
                EditableEvent::MouseOver(p, id) => {
                    &&& final(self).dragging == old(self).dragging
                    &&& final(editor).highlight_map() == old(editor).highlight_map()
                    &&& final(requests).cursor_position == old(requests).cursor_position
                    &&& match old(self).dragging {
                        Some(start) => final(requests).id == Some(id)
                            && final(requests).cursor_selections == Some((start, p)),
                        None => final(requests).id == old(requests).id
                            && final(requests).cursor_selections
                            == old(requests).cursor_selections,
                    }
                },
                EditableEvent::Click => {
                    &&& final(self).dragging is None
                    &&& final(editor).highlight_map() == old(editor).highlight_map()
                    &&& *final(requests) == *old(requests)
                },
            },
    {
        match event {
            EditableEvent::MouseDown(p, id) => {
                self.dragging = Some(p);
                requests.set_id(Some(id));
                requests.set_cursor_position(Some(p));
                editor.unhighlight();
            },
            EditableEvent::MouseOver(p, id) => {
                if let Some(start) = self.dragging {
                    requests.set_id(Some(id));
                    requests.set_cursor_selections(Some((start, p)));
                }
            },
            EditableEvent::Click => {
                self.dragging = None;
            },
        }
        self.dragging.is_some()
    }
}

/// A resolved cursor always lies on an existing line, at a column no further
/// than that line's end.
pub proof fn lemma_resolved_column_in_line(s: Seq<char>, mode: EditableMode, position: int, id: int)
    requires
        0 <= position,
        0 <= id,
    ensures
        resolved(s, mode, position, id) matches Some(p) ==> p.0 < line_count(s) && p.1 <= line_len(
            s,
            p.0,
        ),
{
    match mode {
        EditableMode::MultipleLinesSingleEditor => {
            if 0 <= position <= s.len() {
                lemma_offset_on_line(s, position);
            }
        },
        EditableMode::SingleLineMultipleEditors => {
            if 0 <= id < line_count(s) {
                lemma_line_bounds(s, id as nat);
            }
        },
    }
}

} // verus!
