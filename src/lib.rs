//! A todo list for one interactive run: entries with a title, a description
//! and a completion flag, kept in order and addressed by 1-based position, and
//! the menu dialogue that adds, views, marks, edits, deletes and exports them.
//!
//! `session` decides what each line of input does; the caller reads the lines,
//! prints what comes back and writes the export files.

pub mod text;
pub mod todo;
pub mod store;
pub mod menu;
pub mod session;
pub mod laws;
