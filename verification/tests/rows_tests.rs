//! Tests for the row store, tab expansion and text round-trips.

use pound::keys::EditorError;
use pound::rows::EditorRows;
use pound::text::split_text;

fn chars(s: &str) -> Vec<char> {
    s.chars().collect()
}

fn lines(v: &[&str]) -> Vec<String> {
    v.iter().map(|s| s.to_string()).collect()
}

fn store(v: &[&str]) -> EditorRows {
    EditorRows::load(lines(v), None)
}

fn raw_str(rows: &EditorRows, at: usize) -> String {
    rows.raw(at).unwrap().iter().collect()
}

fn rendered_str(rows: &EditorRows, at: usize) -> String {
    rows.rendered(at).unwrap().clone()
}

#[test]
fn load_keeps_lines() {
    let rows = store(&["ab", "", "cd"]);
    assert_eq!(rows.number_of_rows(), 3);
    assert_eq!(raw_str(&rows, 0), "ab");
    assert_eq!(raw_str(&rows, 1), "");
    assert_eq!(raw_str(&rows, 2), "cd");
}

#[test]
fn tab_expands_to_next_stop() {
    let rows = store(&["ab\tc"]);
    assert_eq!(rendered_str(&rows, 0), "ab      c");
}

#[test]
fn tab_at_start_expands_to_full_stop() {
    let rows = store(&["\tx"]);
    assert_eq!(rendered_str(&rows, 0), "        x");
}

#[test]
fn tab_at_stop_boundary_still_emits_spaces() {
    let rows = store(&["12345678\t9"]);
    assert_eq!(rendered_str(&rows, 0), "12345678        9");
}

#[test]
fn consecutive_tabs_expand_independently() {
    let rows = store(&["\t\t"]);
    assert_eq!(rendered_str(&rows, 0), " ".repeat(16));
}

#[test]
fn insert_char_updates_raw_and_rendered() {
    let mut rows = store(&["ac"]);
    assert!(rows.insert_char(0, 1, 'b').is_ok());
    assert_eq!(raw_str(&rows, 0), "abc");
    assert_eq!(rendered_str(&rows, 0), "abc");
}

#[test]
fn insert_tab_recomputes_render_cache() {
    let mut rows = store(&["abc"]);
    assert!(rows.insert_char(0, 1, '\t').is_ok());
    assert_eq!(raw_str(&rows, 0), "a\tbc");
    assert_eq!(rendered_str(&rows, 0), "a       bc");
}

#[test]
fn insert_char_out_of_bounds_is_index_error() {
    let mut rows = store(&["ab"]);
    assert_eq!(rows.insert_char(1, 0, 'x'), Err(EditorError::IndexError));
    assert_eq!(rows.insert_char(0, 3, 'x'), Err(EditorError::IndexError));
    assert_eq!(raw_str(&rows, 0), "ab");
}

#[test]
fn delete_char_updates_raw_and_rendered() {
    let mut rows = store(&["a\tc"]);
    assert!(rows.delete_char(0, 1).is_ok());
    assert_eq!(raw_str(&rows, 0), "ac");
    assert_eq!(rendered_str(&rows, 0), "ac");
}

#[test]
fn delete_char_out_of_bounds_is_index_error() {
    let mut rows = store(&["ab"]);
    assert_eq!(rows.delete_char(0, 2), Err(EditorError::IndexError));
    assert_eq!(rows.delete_char(2, 0), Err(EditorError::IndexError));
}

#[test]
fn join_row_appends_to_previous() {
    let mut rows = store(&["ab", "\tc"]);
    assert!(rows.join_row(1).is_ok());
    assert_eq!(rows.number_of_rows(), 1);
    assert_eq!(raw_str(&rows, 0), "ab\tc");
    assert_eq!(rendered_str(&rows, 0), "ab      c");
}

#[test]
fn join_row_zero_is_index_error() {
    let mut rows = store(&["ab", "cd"]);
    assert_eq!(rows.join_row(0), Err(EditorError::IndexError));
    assert_eq!(rows.join_row(2), Err(EditorError::IndexError));
    assert_eq!(rows.number_of_rows(), 2);
}

#[test]
fn split_then_join_is_identity() {
    let mut rows = store(&["hello", "world"]);
    assert!(rows.split_row(0, 2).is_ok());
    assert_eq!(rows.number_of_rows(), 3);
    assert_eq!(raw_str(&rows, 0), "he");
    assert_eq!(raw_str(&rows, 1), "llo");
    assert!(rows.join_row(1).is_ok());
    assert_eq!(rows.number_of_rows(), 2);
    assert_eq!(raw_str(&rows, 0), "hello");
    assert_eq!(raw_str(&rows, 1), "world");
}

#[test]
fn split_at_ends_makes_empty_rows() {
    let mut rows = store(&["ab"]);
    assert!(rows.split_row(0, 0).is_ok());
    assert_eq!(raw_str(&rows, 0), "");
    assert_eq!(raw_str(&rows, 1), "ab");
    let mut rows2 = store(&["ab"]);
    assert!(rows2.split_row(0, 2).is_ok());
    assert_eq!(raw_str(&rows2, 0), "ab");
    assert_eq!(raw_str(&rows2, 1), "");
}

#[test]
fn accessors_out_of_range_are_index_errors() {
    let rows = store(&["ab"]);
    assert!(rows.raw(0).is_ok());
    assert_eq!(rows.raw(1).unwrap_err(), EditorError::IndexError);
    assert_eq!(rows.rendered(1).unwrap_err(), EditorError::IndexError);
}

#[test]
fn to_text_joins_with_line_breaks() {
    let rows = store(&["ab", "", "cd"]);
    assert_eq!(rows.to_text(), "ab\n\ncd");
    let empty = EditorRows::new();
    assert_eq!(empty.number_of_rows(), 0);
    assert_eq!(empty.to_text(), "");
}

#[test]
fn load_to_text_round_trip() {
    let input = vec!["alpha".to_string(), "".to_string(), "beta".to_string()];
    let rows = EditorRows::load(input.clone(), None);
    let text = rows.to_text();
    let back: Vec<String> = split_text(&text);
    assert_eq!(back, input);
}

#[test]
fn split_text_cases() {
    assert_eq!(split_text(""), Vec::<String>::new());
    assert_eq!(split_text("ab"), vec!["ab".to_string()]);
    assert_eq!(split_text("ab\n"), vec!["ab".to_string()]);
    assert_eq!(split_text("ab\ncd"), vec!["ab".to_string(), "cd".to_string()]);
    assert_eq!(
        split_text("\nab\n\ncd"),
        vec!["".to_string(), "ab".to_string(), "".to_string(), "cd".to_string()]
    );
}

#[test]
fn str_chars_and_back() {
    let v = pound::strutil::str_chars("a\tb");
    assert_eq!(v, chars("a\tb"));
    let s = pound::strutil::chars_string(&v);
    assert_eq!(s, "a\tb");
}
