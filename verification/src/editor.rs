//! The edit session: one key event in, one state transition out.
//!
//! The dispatch is a flat decision table over `(code, modifiers)`.  Any
//! key other than the quit chord resets the quit-confirmation counter;
//! saving is requested from the caller, which performs the file write
//! and reports the outcome back.

use vstd::prelude::*;
use crate::cursor::CursorController;
use crate::cursor::is_move_key;
use crate::cursor::is_page_key;
use crate::cursor::move_spec;
use crate::cursor::page_spec;
use crate::decimal::dec_of;
use crate::decimal::dec_string;
use crate::keys::EditorError;
use crate::keys::KeyCode;
use crate::keys::KeyEvent;
use crate::keys::KeyModifiers;
use crate::output::Output;
use crate::output::backspace_cx;
use crate::output::backspace_cy;
use crate::output::backspace_is_noop;
use crate::output::backspace_raws;
use crate::output::dirty_inc;
use crate::output::insert_at;
use crate::rows::EditorRows;
use crate::text::join_lines;
use crate::text::line_views;
use vstd::string::StringExecFns;

verus! {

/// How many times the quit chord must be pressed to drop unsaved work.
pub const QUIT_TIMES: u64 = 3;

/// The quit chord.
pub open spec fn is_quit_key(k: KeyEvent) -> bool {
    k.code == KeyCode::Char('q') && k.modifiers == KeyModifiers::Control
}

/// The save chord.
pub open spec fn is_save_key(k: KeyEvent) -> bool {
    k.code == KeyCode::Char('s') && k.modifiers == KeyModifiers::Control
}

/// A bare single-step navigation key.
pub open spec fn is_nav_key(k: KeyEvent) -> bool {
    is_move_key(k.code) && k.modifiers == KeyModifiers::Plain
}

/// A bare paging key.
pub open spec fn is_paging_key(k: KeyEvent) -> bool {
    is_page_key(k.code) && k.modifiers == KeyModifiers::Plain
}

/// A key that inserts a character: a printable character without a
/// control modifier, or the tab key.
pub open spec fn is_insert_key(k: KeyEvent) -> bool {
    ||| (k.code is Char && (k.modifiers == KeyModifiers::Plain || k.modifiers
        == KeyModifiers::Shift))
    ||| (k.code == KeyCode::Tab && k.modifiers == KeyModifiers::Plain)
}

/// The character an insert key contributes.
pub open spec fn inserted_char(k: KeyEvent) -> char {
    match k.code {
        KeyCode::Char(c) => c,
        _ => '\t',
    }
}

/// The bare backspace key.
pub open spec fn is_backspace_key(k: KeyEvent) -> bool {
    k.code == KeyCode::Backspace && k.modifiers == KeyModifiers::Plain
}

/// The bare delete key.
pub open spec fn is_delete_key(k: KeyEvent) -> bool {
    k.code == KeyCode::Delete && k.modifiers == KeyModifiers::Plain
}

/// A key handled by none of the other arms.
pub open spec fn is_other_key(k: KeyEvent) -> bool {
    !is_quit_key(k) && !is_save_key(k) && !is_nav_key(k) && !is_paging_key(k)
        && !is_insert_key(k) && !is_backspace_key(k) && !is_delete_key(k)
}

/// The warning shown while unsaved changes block a quit.
pub open spec fn quit_warning(n: nat) -> Seq<char> {
    "Unsaved changes. Press the quit key "@ + dec_of(n) + " more times to quit."@
}

/// The message shown when a save is requested with no file name.
pub open spec fn no_name_text() -> Seq<char> {
    "No file name set. Save aborted."@
}

/// The message shown after a successful save of `bytes` bytes.
pub open spec fn saved_text(bytes: nat) -> Seq<char> {
    dec_of(bytes) + " bytes written to disk."@
}

/// The message shown when the file write failed.
pub open spec fn save_failed_text() -> Seq<char> {
    "Saving failed. The file is unchanged on disk."@
}

/// What the caller must do after one dispatched key.
#[derive(Debug, Clone, PartialEq, Eq)]
pub enum KeyOutcome {
    /// Keep running; render and read the next key.
    Continue,
    /// Tear the terminal down and exit.
    Quit,
    /// Write the text to the named file, then report with `save_done`.
    Save(String, String),
}

/// The session: the visible state plus the quit-confirmation counter.
pub struct Editor {
    pub output: Output,
    pub quit_times: u64,
}

impl Editor {
    /// The session invariant.
    pub open spec fn wf(&self) -> bool {
        self.output.wf()
    }

    /// A session over the given lines on a `columns` by `rows` terminal;
    /// the bottom two rows are reserved for the status and message bars.
    pub fn new(columns: usize, rows: usize, lines: Vec<String>, filename: Option<
        String,
    >) -> (r: Editor)
        requires
            columns >= 1,
            rows >= 3,
        ensures
            r.wf(),
            r.output.editor_rows.raws() == line_views(lines@),
            r.output.editor_rows.filename == filename,
            r.output.win_size == (columns, (rows - 2) as usize),
            r.output.cursor_controller == (CursorController {
                cursor_x: 0,
                cursor_y: 0,
                screen_columns: columns,
                screen_rows: (rows - 2) as usize,
                row_offset: 0,
                column_offset: 0,
                render_x: 0,
            }),
            r.output.dirty == 0,
            r.output.status_message.text is None,
            r.quit_times == QUIT_TIMES,
    {
        let editor_rows = EditorRows::load(lines, filename);
        let output = Output::new((columns, rows - 2), editor_rows);
        Editor { output, quit_times: QUIT_TIMES }
    }

    /// Dispatches one key event, at `now` milliseconds on the caller's
    /// clock, and says what the caller must do next.
    pub fn process_keypress(&mut self, key: KeyEvent, now: u64) -> (r: KeyOutcome)
        requires
            old(self).wf(),
        ensures
            final(self).wf(),
            final(self).output.win_size == old(self).output.win_size,
            is_quit_key(key) ==> ({
                if old(self).output.dirty == 0 || old(self).quit_times <= 1 {
                    r == KeyOutcome::Quit && *final(self) == *old(self)
                } else {
                    &&& r == KeyOutcome::Continue
                    &&& final(self).quit_times == old(self).quit_times - 1
                    &&& final(self).output.editor_rows == old(self).output.editor_rows
                    &&& final(self).output.cursor_controller == old(self).output.cursor_controller
                    &&& final(self).output.dirty == old(self).output.dirty
                    &&& final(self).output.status_message.set_at == now
                    &&& final(self).output.status_message.text matches Some(t) && t@
                        == quit_warning((old(self).quit_times - 1) as nat)
                }
            }),
            is_save_key(key) ==> final(self).quit_times == QUIT_TIMES && ({
                match old(self).output.editor_rows.filename {
                    Option::Some(f) => {
                        &&& r matches KeyOutcome::Save(p, t) && p@ == f@ && t@ == join_lines(
                            old(self).output.editor_rows.raws(),
                        )
                        &&& final(self).output == old(self).output
                    },
                    Option::None => {
                        &&& r == KeyOutcome::Continue
                        &&& final(self).output.editor_rows == old(self).output.editor_rows
                        &&& final(self).output.cursor_controller == old(self).output.cursor_controller
                        &&& final(self).output.dirty == old(self).output.dirty
                        &&& final(self).output.status_message.set_at == now
                        &&& final(self).output.status_message.text matches Some(t) && t@
                            == no_name_text()
                    },
                }
            }),
            is_nav_key(key) ==> r == KeyOutcome::Continue && final(self).quit_times
                == QUIT_TIMES && final(self).output == (Output {
                cursor_controller: move_spec(
                    old(self).output.cursor_controller,
                    key.code,
                    old(self).output.editor_rows.raws(),
                ),
                ..old(self).output
            }),
            is_paging_key(key) ==> r == KeyOutcome::Continue && final(self).quit_times
                == QUIT_TIMES && final(self).output == (Output {
                cursor_controller: page_spec(
                    old(self).output.cursor_controller,
                    key.code,
                    old(self).output.editor_rows.raws(),
                    old(self).output.win_size.1 as nat,
                ),
                ..old(self).output
            }),
            is_insert_key(key) ==> ({
                &&& r == KeyOutcome::Continue
                &&& final(self).quit_times == QUIT_TIMES
                &&& final(self).output.editor_rows.raws() == insert_at(
                    old(self).output.editor_rows.raws(),
                    old(self).output.cursor_controller.cursor_y as int,
                    old(self).output.cursor_controller.cursor_x as int,
                    inserted_char(key),
                )
                &&& final(self).output.editor_rows.filename == old(self).output.editor_rows.filename
                &&& final(self).output.cursor_controller == (CursorController {
                    cursor_x: (old(self).output.cursor_controller.cursor_x + 1) as usize,
                    ..old(self).output.cursor_controller
                })
                &&& final(self).output.dirty == dirty_inc(old(self).output.dirty)
                &&& final(self).output.status_message == old(self).output.status_message
            }),
            is_backspace_key(key) ==> ({
                let raws = old(self).output.editor_rows.raws();
                let cy = old(self).output.cursor_controller.cursor_y as int;
                let cx = old(self).output.cursor_controller.cursor_x as int;
                &&& r == KeyOutcome::Continue
                &&& final(self).quit_times == QUIT_TIMES
                &&& final(self).output.editor_rows.raws() == backspace_raws(raws, cy, cx)
                &&& final(self).output.editor_rows.filename == old(self).output.editor_rows.filename
                &&& final(self).output.cursor_controller == (CursorController {
                    cursor_y: backspace_cy(raws, cy, cx) as usize,
                    cursor_x: backspace_cx(raws, cy, cx) as usize,
                    ..old(self).output.cursor_controller
                })
                &&& final(self).output.dirty == if backspace_is_noop(raws, cy, cx) {
                    old(self).output.dirty
                } else {
                    dirty_inc(old(self).output.dirty)
                }
                &&& final(self).output.status_message == old(self).output.status_message
            }),
            is_delete_key(key) ==> ({
                let raws = old(self).output.editor_rows.raws();
                let moved = move_spec(
                    old(self).output.cursor_controller,
                    KeyCode::Right,
                    raws,
                );
                let cy = moved.cursor_y as int;
                let cx = moved.cursor_x as int;
                &&& r == KeyOutcome::Continue
                &&& final(self).quit_times == QUIT_TIMES
                &&& final(self).output.editor_rows.raws() == backspace_raws(raws, cy, cx)
                &&& final(self).output.editor_rows.filename == old(self).output.editor_rows.filename
                &&& final(self).output.cursor_controller == (CursorController {
                    cursor_y: backspace_cy(raws, cy, cx) as usize,
                    cursor_x: backspace_cx(raws, cy, cx) as usize,
                    ..old(self).output.cursor_controller
                })
                &&& final(self).output.dirty == if backspace_is_noop(raws, cy, cx) {
                    old(self).output.dirty
                } else {
                    dirty_inc(old(self).output.dirty)
                }
                &&& final(self).output.status_message == old(self).output.status_message
            }),
            is_other_key(key) ==> r == KeyOutcome::Continue && final(self).quit_times
                == QUIT_TIMES && final(self).output == old(self).output,
    {
        match (key.code, key.modifiers) {
            (KeyCode::Char('q'), KeyModifiers::Control) => {
                if self.output.dirty == 0 || self.quit_times <= 1 {
                    return KeyOutcome::Quit;
                }
                self.quit_times = self.quit_times - 1;
                let mut warning = String::new();
                warning.append("Unsaved changes. Press the quit key ");
                let count = dec_string(self.quit_times);
                warning.append(count.as_str());
                warning.append(" more times to quit.");
                self.output.status_message.set(warning, now);
                KeyOutcome::Continue
            },
            (KeyCode::Char('s'), KeyModifiers::Control) => {
                self.quit_times = QUIT_TIMES;
                match &self.output.editor_rows.filename {
                    Some(name) => {
                        let path = name.clone();
                        let text = self.output.editor_rows.to_text();
                        KeyOutcome::Save(path, text)
                    },
                    None => {
                        let mut msg = String::new();
                        msg.append("No file name set. Save aborted.");
                        self.output.status_message.set(msg, now);
                        KeyOutcome::Continue
                    },
                }
            },
            (
                KeyCode::Up
                | KeyCode::Down
                | KeyCode::Left
                | KeyCode::Right
                | KeyCode::Home
                | KeyCode::End,
                KeyModifiers::Plain,
            ) => {
                self.quit_times = QUIT_TIMES;
                self.output.move_cursor(key.code);
                KeyOutcome::Continue
            },
            (KeyCode::PageUp | KeyCode::PageDown, KeyModifiers::Plain) => {
                self.quit_times = QUIT_TIMES;
                self.output.page_cursor(key.code);
                KeyOutcome::Continue
            },
            (KeyCode::Char(c), KeyModifiers::Plain | KeyModifiers::Shift) => {
                self.quit_times = QUIT_TIMES;
                self.output.insert_char(c);
                KeyOutcome::Continue
            },
            (KeyCode::Tab, KeyModifiers::Plain) => {
                self.quit_times = QUIT_TIMES;
                self.output.insert_char('\t');
                KeyOutcome::Continue
            },
            (KeyCode::Backspace, KeyModifiers::Plain) => {
                self.quit_times = QUIT_TIMES;
                self.output.backspace();
                KeyOutcome::Continue
            },
            (KeyCode::Delete, KeyModifiers::Plain) => {
                self.quit_times = QUIT_TIMES;
                self.output.delete();
                KeyOutcome::Continue
            },
            _ => {
                self.quit_times = QUIT_TIMES;
                KeyOutcome::Continue
            },
        }
    }

    /// Reports the outcome of a requested file write: a success clears
    /// the dirty counter, a failure leaves the buffer counted as unsaved;
    /// either way only the status message changes besides the counter.
    pub fn save_done(&mut self, result: Result<u64, EditorError>, now: u64)
        requires
            old(self).wf(),
        ensures
            final(self).wf(),
            final(self).output.editor_rows == old(self).output.editor_rows,
            final(self).output.cursor_controller == old(self).output.cursor_controller,
            final(self).output.win_size == old(self).output.win_size,
            final(self).quit_times == old(self).quit_times,
            final(self).output.status_message.set_at == now,
            match result {
                Result::Ok(bytes) => final(self).output.dirty == 0 && (final(
                    self).output.status_message.text matches Some(t) && t@ == saved_text(
                    bytes as nat)),
                Result::Err(_) => final(self).output.dirty == old(self).output.dirty && (
                final(self).output.status_message.text matches Some(t) && t@
                    == save_failed_text()),
            },
    {
        match result {
            Ok(bytes) => {
                self.output.dirty = 0;
                let mut msg = dec_string(bytes);
                msg.append(" bytes written to disk.");
                self.output.status_message.set(msg, now);
            },
            Err(_) => {
                let mut msg = String::new();
                msg.append("Saving failed. The file is unchanged on disk.");
                self.output.status_message.set(msg, now);
            },
        }
    }

    /// Renders one frame of the current state: the scroll offsets follow
    /// the cursor, the message expires lazily, and the directives are
    /// exactly the frame of the post-scroll state.
    pub fn refresh_screen(&mut self, now: u64) -> (frame: Vec<
        crate::contents::Directive,
    >)
        requires
            old(self).wf(),
        ensures
            final(self).wf(),
            final(self).quit_times == old(self).quit_times,
            final(self).output.editor_rows == old(self).output.editor_rows,
            final(self).output.win_size == old(self).output.win_size,
            final(self).output.dirty == old(self).output.dirty,
            final(self).output.cursor_controller == crate::cursor::scroll_spec(
                old(self).output.cursor_controller,
                old(self).output.editor_rows.raws(),
            ),
            final(self).output.status_message == crate::status::expire_spec(
                old(self).output.status_message,
                now,
            ),
            crate::contents::dir_views(frame@) == crate::output::frame_spec(
                old(self).output.editor_rows.raws(),
                final(self).output.cursor_controller,
                crate::output::display_name(old(self).output.editor_rows.filename),
                old(self).output.dirty > 0,
                crate::output::msg_view(
                    crate::status::expire_spec(old(self).output.status_message, now).text,
                ),
            ),
    {
        self.output.refresh_screen(now)
    }
}

} // verus!
