//! Tests for the cursor model, the key dispatch state machine and the
//! frame renderer.

use pound::contents::Directive;
use pound::editor::Editor;
use pound::editor::KeyOutcome;
use pound::keys::EditorError;
use pound::keys::KeyCode;
use pound::keys::KeyEvent;
use pound::keys::KeyModifiers;

fn key(code: KeyCode) -> KeyEvent {
    KeyEvent { code, modifiers: KeyModifiers::Plain }
}

fn ctrl(c: char) -> KeyEvent {
    KeyEvent { code: KeyCode::Char(c), modifiers: KeyModifiers::Control }
}

fn lines(v: &[&str]) -> Vec<String> {
    v.iter().map(|s| s.to_string()).collect()
}

fn editor(v: &[&str]) -> Editor {
    Editor::new(80, 24, lines(v), None)
}

fn press(ed: &mut Editor, k: KeyEvent) -> KeyOutcome {
    ed.process_keypress(k, 0)
}

fn raw_str(ed: &Editor, at: usize) -> String {
    ed.output.editor_rows.raw(at).unwrap().iter().collect()
}

fn cursor(ed: &Editor) -> (usize, usize) {
    (ed.output.cursor_controller.cursor_y, ed.output.cursor_controller.cursor_x)
}

fn message(ed: &Editor) -> Option<String> {
    ed.output.status_message.text.clone()
}

#[test]
fn backspace_at_row_start_joins_rows() {
    let mut ed = editor(&["ab", "cd"]);
    assert_eq!(press(&mut ed, key(KeyCode::Down)), KeyOutcome::Continue);
    assert_eq!(cursor(&ed), (1, 0));
    assert_eq!(press(&mut ed, key(KeyCode::Backspace)), KeyOutcome::Continue);
    assert_eq!(ed.output.editor_rows.number_of_rows(), 1);
    assert_eq!(raw_str(&ed, 0), "abcd");
    assert_eq!(cursor(&ed), (0, 2));
    assert_eq!(ed.output.dirty, 1);
}

#[test]
fn insert_into_empty_buffer() {
    let mut ed = editor(&[]);
    assert_eq!(press(&mut ed, key(KeyCode::Char('x'))), KeyOutcome::Continue);
    assert_eq!(ed.output.editor_rows.number_of_rows(), 1);
    assert_eq!(raw_str(&ed, 0), "x");
    assert_eq!(ed.output.dirty, 1);
    assert_eq!(cursor(&ed), (0, 1));
}

#[test]
fn quit_clean_is_immediate() {
    let mut ed = editor(&["ab"]);
    assert_eq!(press(&mut ed, ctrl('q')), KeyOutcome::Quit);
}

#[test]
fn quit_dirty_needs_three_presses() {
    let mut ed = editor(&[]);
    press(&mut ed, key(KeyCode::Char('x')));
    assert_eq!(ed.output.dirty, 1);
    assert_eq!(press(&mut ed, ctrl('q')), KeyOutcome::Continue);
    let m1 = message(&ed).unwrap();
    assert_eq!(m1, "Unsaved changes. Press the quit key 2 more times to quit.");
    assert_eq!(press(&mut ed, ctrl('q')), KeyOutcome::Continue);
    let m2 = message(&ed).unwrap();
    assert_eq!(m2, "Unsaved changes. Press the quit key 1 more times to quit.");
    assert_eq!(press(&mut ed, ctrl('q')), KeyOutcome::Quit);
}

#[test]
fn other_key_resets_quit_confirmation() {
    let mut ed = editor(&[]);
    press(&mut ed, key(KeyCode::Char('x')));
    assert_eq!(press(&mut ed, ctrl('q')), KeyOutcome::Continue);
    assert_eq!(press(&mut ed, ctrl('q')), KeyOutcome::Continue);
    assert_eq!(press(&mut ed, key(KeyCode::Right)), KeyOutcome::Continue);
    assert_eq!(press(&mut ed, ctrl('q')), KeyOutcome::Continue);
    assert_eq!(press(&mut ed, ctrl('q')), KeyOutcome::Continue);
    assert_eq!(press(&mut ed, ctrl('q')), KeyOutcome::Quit);
}

#[test]
fn save_without_name_only_sets_message() {
    let mut ed = editor(&["ab"]);
    press(&mut ed, key(KeyCode::Char('x')));
    assert_eq!(ed.output.dirty, 1);
    assert_eq!(press(&mut ed, ctrl('s')), KeyOutcome::Continue);
    assert_eq!(message(&ed).unwrap(), "No file name set. Save aborted.");
    assert_eq!(ed.output.dirty, 1);
    assert_eq!(raw_str(&ed, 0), "xab");
}

#[test]
fn save_with_name_hands_out_path_and_text() {
    let mut ed = Editor::new(80, 24, lines(&["ab", "cd"]), Some("note.txt".to_string()));
    match press(&mut ed, ctrl('s')) {
        KeyOutcome::Save(path, text) => {
            assert_eq!(path, "note.txt");
            assert_eq!(text, "ab\ncd");
        }
        other => panic!("expected a save request, got {:?}", other),
    }
    ed.save_done(Ok(5), 10);
    assert_eq!(ed.output.dirty, 0);
    assert_eq!(message(&ed).unwrap(), "5 bytes written to disk.");
}

#[test]
fn failed_save_keeps_dirty() {
    let mut ed = Editor::new(80, 24, lines(&[]), Some("note.txt".to_string()));
    press(&mut ed, key(KeyCode::Char('x')));
    match press(&mut ed, ctrl('s')) {
        KeyOutcome::Save(_, text) => assert_eq!(text, "x"),
        other => panic!("expected a save request, got {:?}", other),
    }
    ed.save_done(Err(EditorError::IoError), 10);
    assert_eq!(ed.output.dirty, 1);
    assert_eq!(message(&ed).unwrap(), "Saving failed. The file is unchanged on disk.");
}

#[test]
fn delete_removes_character_under_cursor() {
    let mut ed = editor(&["abc"]);
    press(&mut ed, key(KeyCode::Right));
    assert_eq!(press(&mut ed, key(KeyCode::Delete)), KeyOutcome::Continue);
    assert_eq!(raw_str(&ed, 0), "ac");
    assert_eq!(cursor(&ed), (0, 1));
}

#[test]
fn delete_at_row_end_pulls_next_row_up() {
    let mut ed = editor(&["ab", "cd"]);
    press(&mut ed, key(KeyCode::End));
    assert_eq!(press(&mut ed, key(KeyCode::Delete)), KeyOutcome::Continue);
    assert_eq!(ed.output.editor_rows.number_of_rows(), 1);
    assert_eq!(raw_str(&ed, 0), "abcd");
    assert_eq!(cursor(&ed), (0, 2));
}

#[test]
fn left_at_row_start_wraps_to_previous_end() {
    let mut ed = editor(&["abc", "d"]);
    press(&mut ed, key(KeyCode::Down));
    press(&mut ed, key(KeyCode::Left));
    assert_eq!(cursor(&ed), (0, 3));
    press(&mut ed, key(KeyCode::Left));
    assert_eq!(cursor(&ed), (0, 2));
}

#[test]
fn left_at_origin_is_noop() {
    let mut ed = editor(&["abc"]);
    press(&mut ed, key(KeyCode::Left));
    assert_eq!(cursor(&ed), (0, 0));
    assert_eq!(ed.output.dirty, 0);
}

#[test]
fn right_at_row_end_wraps_to_next_row() {
    let mut ed = editor(&["ab", "cd"]);
    press(&mut ed, key(KeyCode::End));
    assert_eq!(cursor(&ed), (0, 2));
    press(&mut ed, key(KeyCode::Right));
    assert_eq!(cursor(&ed), (1, 0));
}

#[test]
fn right_past_buffer_end_is_noop() {
    let mut ed = editor(&["ab"]);
    press(&mut ed, key(KeyCode::Down));
    assert_eq!(cursor(&ed), (1, 0));
    press(&mut ed, key(KeyCode::Right));
    assert_eq!(cursor(&ed), (1, 0));
}

#[test]
fn down_clamps_column_to_shorter_row() {
    let mut ed = editor(&["abcd", "x"]);
    press(&mut ed, key(KeyCode::End));
    assert_eq!(cursor(&ed), (0, 4));
    press(&mut ed, key(KeyCode::Down));
    assert_eq!(cursor(&ed), (1, 1));
}

#[test]
fn up_at_top_and_down_at_bottom_saturate() {
    let mut ed = editor(&["ab"]);
    press(&mut ed, key(KeyCode::Up));
    assert_eq!(cursor(&ed), (0, 0));
    press(&mut ed, key(KeyCode::Down));
    press(&mut ed, key(KeyCode::Down));
    press(&mut ed, key(KeyCode::Down));
    assert_eq!(cursor(&ed), (1, 0));
}

#[test]
fn page_down_jumps_then_steps() {
    let all: Vec<String> = (0..10).map(|i| i.to_string()).collect();
    let mut ed = Editor::new(10, 5, all, None);
    press(&mut ed, key(KeyCode::PageDown));
    assert_eq!(cursor(&ed), (5, 0));
    press(&mut ed, key(KeyCode::PageUp));
    assert_eq!(cursor(&ed), (0, 0));
}

#[test]
fn page_down_clamps_in_short_buffer() {
    // Clamp-then-step: the jump lands on the bottom viewport edge clamped
    // to the row count, then each step clamps again.
    let mut ed = Editor::new(10, 5, lines(&["a", "b"]), None);
    press(&mut ed, key(KeyCode::PageDown));
    assert_eq!(cursor(&ed), (2, 0));
    press(&mut ed, key(KeyCode::PageUp));
    assert_eq!(cursor(&ed), (0, 0));
}

#[test]
fn delete_at_buffer_end_is_noop() {
    let mut ed = editor(&["ab"]);
    press(&mut ed, key(KeyCode::End));
    assert_eq!(cursor(&ed), (0, 2));
    press(&mut ed, key(KeyCode::Delete));
    assert_eq!(raw_str(&ed, 0), "ab");
    assert_eq!(ed.output.dirty, 0);
    // Delete is literally "step right, then backspace": the step right
    // lands on the append line and the backspace there does nothing.
    assert_eq!(cursor(&ed), (1, 0));
}

#[test]
fn backspace_past_last_row_is_noop() {
    let mut ed = editor(&["ab"]);
    press(&mut ed, key(KeyCode::Down));
    assert_eq!(cursor(&ed), (1, 0));
    press(&mut ed, key(KeyCode::Backspace));
    assert_eq!(ed.output.editor_rows.number_of_rows(), 1);
    assert_eq!(raw_str(&ed, 0), "ab");
    assert_eq!(ed.output.dirty, 0);
}

#[test]
fn scroll_follows_cursor_down_and_back() {
    let all: Vec<String> = (0..10).map(|i| i.to_string()).collect();
    let mut ed = Editor::new(10, 5, all, None);
    for _ in 0..5 {
        press(&mut ed, key(KeyCode::Down));
    }
    ed.refresh_screen(0);
    assert_eq!(ed.output.cursor_controller.row_offset, 3);
    for _ in 0..5 {
        press(&mut ed, key(KeyCode::Up));
    }
    ed.refresh_screen(0);
    assert_eq!(ed.output.cursor_controller.row_offset, 0);
}

#[test]
fn tab_sets_render_column_past_stop() {
    let mut ed = editor(&["a\tb"]);
    press(&mut ed, key(KeyCode::Right));
    press(&mut ed, key(KeyCode::Right));
    assert_eq!(cursor(&ed), (0, 2));
    ed.refresh_screen(0);
    assert_eq!(ed.output.cursor_controller.render_x, 8);
}

#[test]
fn frame_of_empty_buffer_shows_banner_and_bars() {
    let mut ed = editor(&[]);
    let frame = ed.refresh_screen(0);
    assert_eq!(frame[0], Directive::HideCursor);
    assert_eq!(frame[1], Directive::MoveTo(0, 0));
    // 22 text rows of three directives each follow.
    assert_eq!(frame[2], Directive::Text("~".to_string()));
    assert_eq!(frame[3], Directive::EraseToEol);
    assert_eq!(frame[4], Directive::Text("\r\n".to_string()));
    // The banner sits on row 22 / 3 = 7.
    let banner = format!("~{}Pound Editor --- Version 0.0.1", " ".repeat(24));
    assert_eq!(frame[2 + 7 * 3], Directive::Text(banner));
    // After the text area: the reverse-video status bar.
    let base = 2 + 22 * 3;
    assert_eq!(frame[base], Directive::ReverseVideo);
    let bar = format!("[No Name] - 0 lines{}0/0", " ".repeat(80 - 19 - 3));
    assert_eq!(frame[base + 1], Directive::Text(bar));
    assert_eq!(frame[base + 2], Directive::ResetVideo);
    assert_eq!(frame[base + 3], Directive::Text("\r\n".to_string()));
    // The message bar is erased and empty, then the cursor is placed.
    assert_eq!(frame[base + 4], Directive::EraseToEol);
    assert_eq!(frame[base + 5], Directive::MoveTo(0, 0));
    assert_eq!(frame[base + 6], Directive::ShowCursor);
    assert_eq!(frame.len(), base + 7);
}

#[test]
fn frame_scrolls_text_horizontally() {
    let mut ed = Editor::new(4, 5, lines(&["abcdefgh"]), None);
    for _ in 0..6 {
        press(&mut ed, key(KeyCode::Right));
    }
    let frame = ed.refresh_screen(0);
    assert_eq!(ed.output.cursor_controller.column_offset, 3);
    assert_eq!(frame[2], Directive::Text("defg".to_string()));
    assert_eq!(frame[frame.len() - 2], Directive::MoveTo(3, 0));
}

#[test]
fn status_bar_shows_name_dirt_and_position() {
    let mut ed = Editor::new(40, 5, lines(&["ab"]), Some("note.txt".to_string()));
    press(&mut ed, key(KeyCode::Char('x')));
    press(&mut ed, key(KeyCode::Down));
    let frame = ed.refresh_screen(0);
    let base = 2 + 3 * 3;
    let left = "note.txt (modified) - 1 lines";
    let right = "1/1";
    let bar = format!("{}{}{}", left, " ".repeat(40 - left.len() - right.len()), right);
    assert_eq!(frame[base + 1], Directive::Text(bar));
}

#[test]
fn message_expires_after_ttl() {
    let mut ed = editor(&[]);
    press(&mut ed, key(KeyCode::Char('x')));
    ed.process_keypress(ctrl('q'), 1000);
    assert!(message(&ed).is_some());
    let frame = ed.refresh_screen(6000);
    assert!(message(&ed).is_some(), "at exactly the ttl boundary the message stays");
    let frame2 = ed.refresh_screen(6001);
    assert!(message(&ed).is_none(), "past the ttl the message is cleared on read");
    // The fresh message was drawn, the stale one no longer is.
    let texts = |f: &Vec<Directive>| {
        f.iter()
            .filter(|d| {
                matches!(d, Directive::Text(t) if t.starts_with("Unsaved changes"))
            })
            .count()
    };
    assert_eq!(texts(&frame), 1);
    assert_eq!(texts(&frame2), 0);
}

#[test]
fn contents_accumulate_text_runs() {
    let mut c = pound::contents::EditorContents::new();
    c.push('a');
    c.push_str("bc");
    c.queue(Directive::EraseToEol);
    assert_eq!(c.parts.len(), 2);
    assert_eq!(c.parts[0], Directive::Text("abc".to_string()));
    assert_eq!(c.parts[1], Directive::EraseToEol);
    assert!(c.content.is_empty());
}

#[test]
fn dirty_counts_every_mutation() {
    let mut ed = editor(&[]);
    press(&mut ed, key(KeyCode::Char('a')));
    press(&mut ed, key(KeyCode::Tab));
    press(&mut ed, key(KeyCode::Char('b')));
    assert_eq!(ed.output.dirty, 3);
    press(&mut ed, key(KeyCode::Backspace));
    assert_eq!(ed.output.dirty, 4);
    assert_eq!(raw_str(&ed, 0), "a\t");
}
