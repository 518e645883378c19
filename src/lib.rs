//! A rope-backed editable text core: a persistent text buffer, a cursor and
//! highlight model over it, and the decisions of an editing session that
//! hands pixel coordinates to a layout engine and applies what comes back.

pub mod lines;
pub mod text_buffer;
pub mod editor;
pub mod session;
