//! A small terminal text editor: rows of text, a document made of rows, and
//! the editor state machine that turns key presses into edits, cursor moves
//! and prompts.
pub mod row;
pub mod document;
pub mod editor;
pub mod lemmas;
pub mod screen;
