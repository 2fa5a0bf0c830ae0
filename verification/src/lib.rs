//! Core of a minimal text editor: an in-memory document (text buffer plus an
//! optional backing path), literal substring search and replace, character
//! statistics, and the editor-level state transitions behind the menu and
//! tool windows. All file and screen I/O lives outside this crate; the
//! library receives plain values (paths, file contents, outcomes) and
//! returns plain values.

pub mod text_ops;
pub mod numfmt;
pub mod document;
pub mod editor;



