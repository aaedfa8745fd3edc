//! Abstract key events and the editor's error taxonomy.
//!
//! The terminal driver decodes raw input into these shapes before the
//! core ever sees it; the core never touches the terminal itself.

use vstd::prelude::*;

verus! {

/// An abstract key symbol.
#[derive(Clone, Copy, PartialEq, Eq, Structural, Debug)]
pub enum KeyCode {
    Char(char),
    Up,
    Down,
    Left,
    Right,
    Home,
    End,
    PageUp,
    PageDown,
    Backspace,
    Delete,
    Tab,
    Other,
}

/// The modifier held with a key, reduced to the shapes the core reacts to.
#[derive(Clone, Copy, PartialEq, Eq, Structural, Debug)]
pub enum KeyModifiers {
    Plain,
    Control,
    Shift,
}

/// One decoded key event.
#[derive(Clone, Copy, PartialEq, Eq, Structural, Debug)]
pub struct KeyEvent {
    pub code: KeyCode,
    pub modifiers: KeyModifiers,
}

/// Everything that can go wrong in or around the core.
///
/// `IndexError` marks a bounds violation on buffer access, `NoFileNameError`
/// a save without an associated path; `IoError` and `DecodeError` are raised
/// by the file collaborator and only carried through here.
#[derive(Clone, Copy, PartialEq, Eq, Structural, Debug)]
pub enum EditorError {
    IndexError,
    NoFileNameError,
    IoError,
    DecodeError,
}

} // verus!
