//! Core engine of a small terminal text editor.
//!
//! The crate keeps the in-memory text buffer (rows of raw text paired with
//! tab-expanded render caches), the cursor/viewport coordinate model, a
//! transient status message, and the renderer that turns the whole state
//! into one batch of display directives per input cycle.  Terminal setup,
//! key polling and file access live outside; the core only consumes
//! decoded key events and plain text and hands back directives.

pub mod strutil;
pub mod keys;
pub mod text;
pub mod row;
pub mod rows;
pub mod cursor;
pub mod status;
pub mod decimal;
pub mod contents;
pub mod output;
pub mod editor;
