use freya_editable::editor::{Cursor, EditKey, EditableMode, Modifiers, RopeEditor};
use freya_editable::session::{
    apply_layout_response, resolve_cursor, CursorLayoutResponse, CursorReference, EditableEvent,
    EditableSession,
};
use freya_editable::text_buffer::{EditError, TextBuffer};

const PLAIN: Modifiers = Modifiers { shift: false };
const SHIFT: Modifiers = Modifiers { shift: true };

fn key(c: &str) -> EditKey {
    EditKey::Character(c.to_string())
}

#[test]
fn buffer_counts_chars_and_lines() {
    let b = TextBuffer::from_str("abc\nde");
    assert_eq!(b.len_chars(), 6);
    assert_eq!(b.len_lines(), 2);
    let empty = TextBuffer::from_str("");
    assert_eq!(empty.len_chars(), 0);
    assert_eq!(empty.len_lines(), 1);
    assert_eq!(TextBuffer::from_str("a\n").len_lines(), 2);
}

#[test]
fn buffer_line_conversions() {
    let b = TextBuffer::from_str("abc\nde");
    assert_eq!(b.line_to_char(0), Ok(0));
    assert_eq!(b.line_to_char(1), Ok(4));
    assert_eq!(b.line_to_char(2), Err(EditError::OutOfBounds));
    assert_eq!(b.char_to_line(3), Ok(0));
    assert_eq!(b.char_to_line(4), Ok(1));
    assert_eq!(b.char_to_line(6), Ok(1));
    assert_eq!(b.char_to_line(7), Err(EditError::OutOfBounds));
    assert_eq!(b.line_len(0), Ok(3));
    assert_eq!(b.line_len(1), Ok(2));
    assert_eq!(b.line_len(2), Err(EditError::OutOfBounds));
}

#[test]
fn buffer_lines_are_split_on_newline_only() {
    let b = TextBuffer::from_str("a\rb\nc");
    assert_eq!(b.len_lines(), 2);
    assert_eq!(b.line(0).unwrap(), "a\rb");
    assert_eq!(b.line(1).unwrap(), "c");
}

#[test]
fn buffer_round_trip_on_every_offset() {
    let b = TextBuffer::from_str("ab\n\ncde\nf");
    for o in 0..=b.len_chars() {
        let row = b.char_to_line(o).unwrap();
        let start = b.line_to_char(row).unwrap();
        assert!(start <= o);
        assert!(o - start <= b.line_len(row).unwrap());
    }
}

#[test]
fn buffer_slice_and_line() {
    let b = TextBuffer::from_str("hello\nworld");
    assert_eq!(b.slice(1, 4).unwrap(), "ell");
    assert_eq!(b.slice(0, 11).unwrap(), "hello\nworld");
    assert_eq!(b.slice(4, 2), Err(EditError::OutOfBounds));
    assert_eq!(b.slice(0, 12), Err(EditError::OutOfBounds));
    assert_eq!(b.line(0).unwrap(), "hello");
    assert_eq!(b.line(1).unwrap(), "world");
    assert_eq!(b.line(2), Err(EditError::OutOfBounds));
}

#[test]
fn buffer_insert_keeps_old_version() {
    let b = TextBuffer::from_str("hello");
    let c = b.insert(2, "XY").ok().unwrap();
    assert_eq!(c.text(), "heXYllo");
    assert_eq!(c.len_chars(), b.len_chars() + 2);
    assert_eq!(b.text(), "hello");
    assert!(matches!(b.insert(6, "z"), Err(EditError::OutOfBounds)));
}

#[test]
fn buffer_remove_keeps_old_version() {
    let b = TextBuffer::from_str("hello world");
    let c = b.remove(5, 11).ok().unwrap();
    assert_eq!(c.text(), "hello");
    assert_eq!(c.len_chars(), b.len_chars() - 6);
    assert_eq!(b.text(), "hello world");
    assert!(matches!(b.remove(3, 2), Err(EditError::OutOfBounds)));
    assert!(matches!(b.remove(3, 12), Err(EditError::OutOfBounds)));
}

#[test]
fn buffer_snapshot_is_independent() {
    let b = TextBuffer::from_str("abc");
    let s = b.snapshot();
    let c = s.insert(3, "d").ok().unwrap();
    assert_eq!(b.text(), "abc");
    assert_eq!(s.text(), "abc");
    assert_eq!(c.text(), "abcd");
}

#[test]
fn editor_starts_at_origin() {
    let e = RopeEditor::from_string("abc", EditableMode::MultipleLinesSingleEditor);
    assert_eq!(e.cursor(), Cursor::new(0, 0));
    assert_eq!(e.cursor_pos(), 0);
    assert_eq!(e.highlights(0), None);
    assert_eq!(e.mode(), EditableMode::MultipleLinesSingleEditor);
    assert_eq!(e.text(), "abc");
}

#[test]
fn editor_set_row_and_col() {
    let mut e = RopeEditor::from_string("abc\nde", EditableMode::MultipleLinesSingleEditor);
    assert_eq!(e.set_col(3), Ok(()));
    assert_eq!(e.set_row(1), Err(EditError::OutOfBounds));
    assert_eq!(e.cursor().as_tuple(), (0, 3));
    assert_eq!(e.set_col(2), Ok(()));
    assert_eq!(e.set_row(1), Ok(()));
    assert_eq!(e.cursor().as_tuple(), (1, 2));
    assert_eq!(e.cursor_pos(), 6);
    assert_eq!(e.set_row(2), Err(EditError::OutOfBounds));
    assert_eq!(e.set_col(3), Err(EditError::OutOfBounds));
    assert_eq!(e.cursor().as_tuple(), (1, 2));
}

#[test]
fn editor_highlights_per_instance() {
    let mut e = RopeEditor::from_string("hello", EditableMode::SingleLineMultipleEditors);
    assert_eq!(e.highlight_text(4, 1, 0), Ok(()));
    assert_eq!(e.highlight_text(0, 2, 3), Ok(()));
    assert_eq!(e.highlights(0), Some((4, 1)));
    assert_eq!(e.highlights(3), Some((0, 2)));
    assert_eq!(e.highlight_text(0, 2, 0), Ok(()));
    assert_eq!(e.highlights(0), Some((0, 2)));
    assert_eq!(e.highlight_text(0, 6, 0), Err(EditError::OutOfBounds));
    assert_eq!(e.highlights(0), Some((0, 2)));
    e.unhighlight();
    assert_eq!(e.highlights(0), None);
    assert_eq!(e.highlights(3), None);
}

#[test]
fn typing_inserts_at_cursor() {
    let mut e = RopeEditor::from_string("hello\nworld", EditableMode::MultipleLinesSingleEditor);
    e.set_cursor(1, 1).unwrap();
    e.process_key(&key("X"), PLAIN);
    assert_eq!(e.text(), "hello\nwXorld");
    assert_eq!(e.cursor().as_tuple(), (1, 2));
}

#[test]
fn enter_splits_the_line() {
    let mut e = RopeEditor::from_string("abcd", EditableMode::MultipleLinesSingleEditor);
    e.set_cursor(0, 2).unwrap();
    e.process_key(&EditKey::Enter, PLAIN);
    assert_eq!(e.text(), "ab\ncd");
    assert_eq!(e.cursor().as_tuple(), (1, 0));
}

#[test]
fn backspace_at_start_does_nothing() {
    let mut e = RopeEditor::from_string("\nabc", EditableMode::MultipleLinesSingleEditor);
    e.highlight_text(1, 2, 0).unwrap();
    e.process_key(&EditKey::Backspace, PLAIN);
    assert_eq!(e.text(), "\nabc");
    assert_eq!(e.cursor().as_tuple(), (0, 0));
    assert_eq!(e.highlights(0), Some((1, 2)));
}

#[test]
fn backspace_joins_lines() {
    let mut e = RopeEditor::from_string("ab\ncd", EditableMode::MultipleLinesSingleEditor);
    e.set_cursor(1, 0).unwrap();
    e.process_key(&EditKey::Backspace, PLAIN);
    assert_eq!(e.text(), "abcd");
    assert_eq!(e.cursor().as_tuple(), (0, 2));
}

#[test]
fn delete_removes_after_cursor() {
    let mut e = RopeEditor::from_string("ab\ncd", EditableMode::MultipleLinesSingleEditor);
    e.set_cursor(0, 2).unwrap();
    e.process_key(&EditKey::Delete, PLAIN);
    assert_eq!(e.text(), "abcd");
    assert_eq!(e.cursor().as_tuple(), (0, 2));
    e.set_cursor(0, 4).unwrap();
    e.process_key(&EditKey::Delete, PLAIN);
    assert_eq!(e.text(), "abcd");
}

#[test]
fn arrows_move_within_text() {
    let mut e = RopeEditor::from_string("abcd\nx\nefg", EditableMode::MultipleLinesSingleEditor);
    e.process_key(&EditKey::ArrowLeft, PLAIN);
    assert_eq!(e.cursor().as_tuple(), (0, 0));
    e.process_key(&EditKey::ArrowUp, PLAIN);
    assert_eq!(e.cursor().as_tuple(), (0, 0));
    e.set_cursor(0, 4).unwrap();
    e.process_key(&EditKey::ArrowRight, PLAIN);
    assert_eq!(e.cursor().as_tuple(), (1, 0));
    e.process_key(&EditKey::ArrowLeft, PLAIN);
    assert_eq!(e.cursor().as_tuple(), (0, 4));
    e.process_key(&EditKey::ArrowDown, PLAIN);
    assert_eq!(e.cursor().as_tuple(), (1, 1));
    e.process_key(&EditKey::ArrowDown, PLAIN);
    assert_eq!(e.cursor().as_tuple(), (2, 1));
    e.process_key(&EditKey::ArrowDown, PLAIN);
    assert_eq!(e.cursor().as_tuple(), (2, 1));
    e.set_cursor(2, 3).unwrap();
    e.process_key(&EditKey::ArrowRight, PLAIN);
    assert_eq!(e.cursor().as_tuple(), (2, 3));
    e.process_key(&EditKey::Other, PLAIN);
    assert_eq!(e.cursor().as_tuple(), (2, 3));
}

#[test]
fn plain_moves_and_typing_clear_highlights() {
    let mut e = RopeEditor::from_string("hello", EditableMode::MultipleLinesSingleEditor);
    e.highlight_text(0, 3, 0).unwrap();
    e.process_key(&EditKey::ArrowRight, SHIFT);
    assert_eq!(e.highlights(0), Some((0, 3)));
    e.process_key(&EditKey::ArrowRight, PLAIN);
    assert_eq!(e.highlights(0), None);
    e.highlight_text(0, 3, 0).unwrap();
    e.process_key(&key("a"), PLAIN);
    assert_eq!(e.highlights(0), None);
    assert_eq!(e.text(), "heallo");
}

#[test]
fn single_line_mode_dispatch() {
    let e = RopeEditor::from_string("a\nb\ncdef", EditableMode::SingleLineMultipleEditors);
    assert_eq!(resolve_cursor(&e, 3, 2), Some(Cursor::new(2, 3)));
    assert_eq!(resolve_cursor(&e, 9, 2), Some(Cursor::new(2, 4)));
    assert_eq!(resolve_cursor(&e, 3, 0), Some(Cursor::new(0, 1)));
    assert_eq!(resolve_cursor(&e, 0, 3), None);
}

#[test]
fn multi_line_mode_dispatch() {
    let e = RopeEditor::from_string("abc\nde", EditableMode::MultipleLinesSingleEditor);
    assert_eq!(resolve_cursor(&e, 5, 7), Some(Cursor::new(1, 1)));
    assert_eq!(resolve_cursor(&e, 3, 0), Some(Cursor::new(0, 3)));
    assert_eq!(resolve_cursor(&e, 7, 0), None);
}

#[test]
fn position_response_moves_cursor() {
    let mut e = RopeEditor::from_string("a\nb\ncdef", EditableMode::SingleLineMultipleEditors);
    let mut requests: CursorReference<(u32, u32)> = CursorReference::new();
    requests.set_cursor_position(Some((1, 1)));
    requests.set_id(Some(2));
    e.highlight_text(0, 1, 2).unwrap();
    apply_layout_response(
        &mut e,
        &mut requests,
        CursorLayoutResponse::CursorPosition { position: 3, id: 2 },
    );
    assert_eq!(e.cursor().as_tuple(), (2, 3));
    assert_eq!(e.highlights(2), None);
    assert_eq!(requests.cursor_position, None);
    assert_eq!(requests.cursor_selections, None);
    assert_eq!(requests.id, Some(2));
}

#[test]
fn stale_responses_are_ignored() {
    let mut e = RopeEditor::from_string("ab\ncd", EditableMode::SingleLineMultipleEditors);
    let mut requests: CursorReference<(u32, u32)> = CursorReference::new();
    e.highlight_text(0, 1, 0).unwrap();
    apply_layout_response(
        &mut e,
        &mut requests,
        CursorLayoutResponse::CursorPosition { position: 1, id: 5 },
    );
    assert_eq!(e.cursor().as_tuple(), (0, 0));
    assert_eq!(e.highlights(0), Some((0, 1)));
    apply_layout_response(
        &mut e,
        &mut requests,
        CursorLayoutResponse::TextSelection { from: 0, to: 2, id: 5 },
    );
    assert_eq!(e.highlights(5), None);
    apply_layout_response(
        &mut e,
        &mut requests,
        CursorLayoutResponse::TextSelection { from: 0, to: 9, id: 1 },
    );
    assert_eq!(e.highlights(1), None);
}

#[test]
fn requests_are_taken_once() {
    let mut requests: CursorReference<(u32, u32)> = CursorReference::new();
    requests.set_cursor_position(Some((3, 4)));
    requests.set_cursor_selections(Some(((1, 1), (2, 2))));
    assert_eq!(requests.take_cursor_position(), Some((3, 4)));
    assert_eq!(requests.take_cursor_position(), None);
    assert_eq!(requests.take_cursor_selections(), Some(((1, 1), (2, 2))));
    assert_eq!(requests.take_cursor_selections(), None);
}

#[test]
fn click_then_type_scenario() {
    let mut e = RopeEditor::from_string("hello\nworld", EditableMode::MultipleLinesSingleEditor);
    let mut session: EditableSession<(u32, u32)> = EditableSession::new();
    let mut requests = CursorReference::new();
    let relayout = session.on_pointer(EditableEvent::MouseDown((10, 20), 0), &mut e, &mut requests);
    assert!(relayout);
    assert_eq!(requests.cursor_position, Some((10, 20)));
    assert_eq!(requests.id, Some(0));
    apply_layout_response(
        &mut e,
        &mut requests,
        CursorLayoutResponse::CursorPosition { position: 7, id: 0 },
    );
    assert_eq!(e.cursor().as_tuple(), (1, 1));
    assert_eq!(requests.cursor_position, None);
    e.process_key(&key("X"), PLAIN);
    assert_eq!(e.text(), "hello\nwXorld");
    assert_eq!(e.cursor().as_tuple(), (1, 2));
}

#[test]
fn drag_selection_scenario() {
    let mut e = RopeEditor::from_string("hello world", EditableMode::MultipleLinesSingleEditor);
    let mut session: EditableSession<(u32, u32)> = EditableSession::new();
    let mut requests = CursorReference::new();
    assert!(!session.on_pointer(EditableEvent::MouseOver((9, 0), 0), &mut e, &mut requests));
    assert_eq!(requests.cursor_selections, None);
    assert!(session.on_pointer(EditableEvent::MouseDown((1, 0), 0), &mut e, &mut requests));
    apply_layout_response(
        &mut e,
        &mut requests,
        CursorLayoutResponse::CursorPosition { position: 1, id: 0 },
    );
    assert!(session.on_pointer(EditableEvent::MouseOver((9, 0), 0), &mut e, &mut requests));
    assert_eq!(requests.cursor_selections, Some(((1, 0), (9, 0))));
    apply_layout_response(
        &mut e,
        &mut requests,
        CursorLayoutResponse::TextSelection { from: 1, to: 9, id: 0 },
    );
    assert_eq!(e.highlights(0), Some((1, 9)));
    assert_eq!(requests.cursor_selections, None);
    assert!(!session.on_pointer(EditableEvent::Click, &mut e, &mut requests));
    assert_eq!(e.highlights(0), Some((1, 9)));
    assert_eq!(e.cursor().as_tuple(), (0, 1));
    session.on_pointer(EditableEvent::MouseDown((2, 0), 0), &mut e, &mut requests);
    assert_eq!(e.highlights(0), None);
}
