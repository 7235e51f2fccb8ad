use theframework::textedit::{TheCursor, TheSelection, TheTextEditState};

fn state(rows: &[&str]) -> TheTextEditState {
    let mut s = TheTextEditState::default();
    s.rows = rows.iter().map(|r| r.to_string()).collect();
    s
}

fn rows(s: &TheTextEditState) -> Vec<String> {
    s.rows.clone()
}

#[test]
fn cursor_basics() {
    let mut c = TheCursor::new(1, 2);
    assert_eq!((c.row, c.column), (1, 2));
    assert!(!c.is_zero());
    c.reset();
    assert!(c.is_zero());
    assert!(TheCursor::zero().is_zero());
    let d = TheCursor::default();
    assert!(d.is_zero());
}

#[test]
fn selection_basics() {
    let mut s = TheSelection { start: 2, end: 5 };
    assert!(s.intersects(4, 8));
    assert!(!s.intersects(5, 8));
    assert!(!s.intersects(0, 2));
    assert!(!s.is_none());
    s.reset();
    assert!(s.is_none());
    assert_eq!((s.start, s.end), (0, 0));
}

#[test]
fn default_state() {
    let s = TheTextEditState::default();
    assert_eq!(rows(&s), vec![String::new()]);
    assert!(s.is_empty());
    assert_eq!(s.tab_spaces, 4);
    assert!(!s.auto_indent && !s.auto_bracket_completion);
}

#[test]
fn set_text_and_to_text_round_trip() {
    let mut s = TheTextEditState::default();
    s.set_text("ab\n\ncd".to_string());
    assert_eq!(rows(&s), vec!["ab", "", "cd"]);
    assert_eq!(s.to_text(), "ab\n\ncd");
    assert!(!s.is_empty());
    s.set_text(String::new());
    assert_eq!(rows(&s), vec![String::new()]);
    assert!(s.is_empty());
}

#[test]
fn rows_and_ranges() {
    let s = state(&["abc", "de"]);
    assert_eq!(s.row_count(), 2);
    assert!(!s.is_last_row(0));
    assert!(s.is_last_row(1));
    assert_eq!(s.glyphs_in_row(0), 3);
    assert_eq!(s.row_len(0), 4);
    assert_eq!(s.row_len(1), 2);
    assert_eq!(s.find_start_index_of_row(0), 0);
    assert_eq!(s.find_start_index_of_row(1), 4);
    assert_eq!(s.find_range_of_row(0), (0, 4));
    assert_eq!(s.find_range_of_row(1), (4, 6));
}

#[test]
fn graphemes_count_as_one_glyph() {
    let s = state(&["e\u{301}x"]);
    assert_eq!(s.glyphs_in_row(0), 2);
    assert_eq!(s.row_len(0), 2);
    assert_eq!(s.byte_offset_of_index(0, 1), 3);
    assert_eq!(s.byte_offset_of_index(0, 5), 4);
}

#[test]
fn insert_char_after_combined_glyph() {
    let mut s = state(&["e\u{301}x"]);
    s.set_cursor(TheCursor::new(0, 1));
    s.insert_char('y');
    assert_eq!(rows(&s), vec!["e\u{301}yx"]);
    assert_eq!((s.cursor.row, s.cursor.column), (0, 2));
}

#[test]
fn row_of_index() {
    let s = state(&["abc", "de"]);
    assert_eq!(s.find_row_number_of_index(0), 0);
    assert_eq!(s.find_row_number_of_index(3), 0);
    assert_eq!(s.find_row_number_of_index(4), 1);
    assert_eq!(s.find_row_number_of_index(5), 1);
    assert_eq!(s.find_row_number_of_index(6), 1);
    assert_eq!(s.find_row_number_of_index(100), 1);
    assert_eq!(s.find_row_col_of_index(5), (1, 1));
    assert_eq!(s.find_row_col_of_index(2), (0, 2));
}

#[test]
fn cursor_index() {
    let mut s = state(&["abc", "de"]);
    s.set_cursor(TheCursor::new(1, 1));
    assert_eq!(s.find_cursor_index(), 5);
    s.reset_cursor();
    assert_eq!(s.find_cursor_index(), 0);
}

#[test]
fn cursor_moves() {
    let mut s = state(&["abc", "de"]);
    s.set_cursor(TheCursor::new(0, 3));
    assert!(s.move_cursor_right());
    assert_eq!((s.cursor.row, s.cursor.column), (1, 0));
    assert!(s.move_cursor_left());
    assert_eq!((s.cursor.row, s.cursor.column), (0, 3));
    assert!(s.move_cursor_down());
    assert_eq!((s.cursor.row, s.cursor.column), (1, 2));
    assert!(!s.move_cursor_down());
    assert!(!s.move_cursor_right());
    assert!(s.move_cursor_up());
    assert_eq!((s.cursor.row, s.cursor.column), (0, 2));
    assert!(!s.move_cursor_up());
    assert!(s.move_cursor_to_line_end());
    assert_eq!(s.cursor.column, 3);
    assert!(!s.move_cursor_to_line_end());
    assert!(s.move_cursor_to_line_start());
    assert_eq!(s.cursor.column, 0);
    assert!(!s.move_cursor_to_line_start());
    assert!(!s.move_cursor_left());
}

#[test]
fn insert_char_plain() {
    let mut s = state(&["ab"]);
    s.set_cursor(TheCursor::new(0, 1));
    s.insert_char('x');
    assert_eq!(rows(&s), vec!["axb"]);
    assert_eq!((s.cursor.row, s.cursor.column), (0, 2));
}

#[test]
fn insert_char_replaces_selection() {
    let mut s = state(&["abcd"]);
    s.set_cursor(TheCursor::new(0, 3));
    s.select(1, 3);
    s.insert_char('x');
    assert_eq!(rows(&s), vec!["axd"]);
    assert_eq!((s.cursor.row, s.cursor.column), (0, 2));
    assert!(s.selection.is_none());
}

#[test]
fn insert_char_completes_brackets() {
    let mut s = state(&["ab"]);
    s.auto_bracket_completion = true;
    s.set_cursor(TheCursor::new(0, 1));
    s.insert_char('(');
    assert_eq!(rows(&s), vec!["a()b"]);
    assert_eq!(s.cursor.column, 2);
    s.insert_char('{');
    assert_eq!(rows(&s), vec!["a({})b"]);
    s.insert_char('x');
    assert_eq!(rows(&s), vec!["a({x})b"]);
}

#[test]
fn insert_brackets_around_selection() {
    let mut s = state(&["abc"]);
    s.auto_bracket_completion = true;
    s.set_cursor(TheCursor::new(0, 2));
    s.select(1, 2);
    s.insert_char('[');
    assert_eq!(rows(&s), vec!["a[b]c"]);
    assert_eq!((s.selection.start, s.selection.end), (2, 3));
    assert_eq!(s.cursor.column, 3);
}

#[test]
fn insert_row_splits() {
    let mut s = state(&["abcd"]);
    s.set_cursor(TheCursor::new(0, 2));
    s.insert_row();
    assert_eq!(rows(&s), vec!["ab", "cd"]);
    assert_eq!((s.cursor.row, s.cursor.column), (1, 0));
}

#[test]
fn insert_row_at_start_and_end() {
    let mut s = state(&["ab"]);
    s.insert_row();
    assert_eq!(rows(&s), vec!["", "ab"]);
    assert_eq!((s.cursor.row, s.cursor.column), (1, 0));
    s.set_cursor(TheCursor::new(1, 2));
    s.insert_row();
    assert_eq!(rows(&s), vec!["", "ab", ""]);
    assert_eq!((s.cursor.row, s.cursor.column), (2, 0));
}

#[test]
fn insert_row_keeps_indent() {
    let mut s = state(&["  ab"]);
    s.auto_indent = true;
    s.set_cursor(TheCursor::new(0, 4));
    s.insert_row();
    assert_eq!(rows(&s), vec!["  ab", "  "]);
    assert_eq!((s.cursor.row, s.cursor.column), (1, 2));
}

#[test]
fn insert_text_single_line() {
    let mut s = state(&["ac"]);
    s.set_cursor(TheCursor::new(0, 1));
    assert_eq!(s.insert_text("b".to_string()), (1, 2));
    assert_eq!(rows(&s), vec!["abc"]);
    assert_eq!((s.cursor.row, s.cursor.column), (0, 2));
}

#[test]
fn insert_text_several_lines() {
    let mut s = state(&["ad"]);
    s.set_cursor(TheCursor::new(0, 1));
    assert_eq!(s.insert_text("b\nc".to_string()), (1, 4));
    assert_eq!(rows(&s), vec!["ab", "cd"]);
    assert_eq!((s.cursor.row, s.cursor.column), (1, 1));
}

#[test]
fn insert_tab_inserts_spaces() {
    let mut s = TheTextEditState::default();
    assert_eq!(s.insert_tab(), (0, 4));
    assert_eq!(rows(&s), vec!["    "]);
    assert_eq!(s.cursor.column, 4);
}

#[test]
fn delete_char() {
    let mut s = state(&["abc"]);
    s.set_cursor(TheCursor::new(0, 2));
    assert!(s.delete_text());
    assert_eq!(rows(&s), vec!["ac"]);
    assert_eq!(s.cursor.column, 1);
    s.set_cursor(TheCursor::new(0, 0));
    assert!(!s.delete_text());
    assert_eq!(rows(&s), vec!["ac"]);
}

#[test]
fn delete_linebreak_joins_rows() {
    let mut s = state(&["ab", "cd"]);
    s.set_cursor(TheCursor::new(1, 0));
    assert!(s.delete_text());
    assert_eq!(rows(&s), vec!["abcd"]);
    assert_eq!((s.cursor.row, s.cursor.column), (0, 2));
}

#[test]
fn delete_spaces_back_to_indent() {
    let mut s = state(&["        "]);
    s.set_cursor(TheCursor::new(0, 8));
    assert!(s.delete_text());
    assert_eq!(rows(&s), vec!["    "]);
    assert_eq!(s.cursor.column, 4);
}

#[test]
fn delete_spaces_back_to_text() {
    let mut s = state(&["ab   "]);
    s.set_cursor(TheCursor::new(0, 5));
    assert!(s.delete_text());
    assert_eq!(rows(&s), vec!["ab"]);
    assert_eq!(s.cursor.column, 2);
}

#[test]
fn delete_selection_across_rows() {
    let mut s = state(&["abc", "def"]);
    s.select(2, 5);
    assert!(s.delete_text());
    assert_eq!(rows(&s), vec!["abef"]);
    assert_eq!((s.cursor.row, s.cursor.column), (0, 0));
    assert!(s.selection.is_none());
}

#[test]
fn delete_selection_moves_cursor_inside() {
    let mut s = state(&["abcdef"]);
    s.set_cursor(TheCursor::new(0, 3));
    s.select(1, 4);
    assert!(s.delete_text_by_selection());
    assert_eq!(rows(&s), vec!["aef"]);
    assert_eq!((s.cursor.row, s.cursor.column), (0, 1));
}

#[test]
fn delete_selection_moves_cursor_after() {
    let mut s = state(&["abcdef"]);
    s.set_cursor(TheCursor::new(0, 6));
    s.select(1, 3);
    assert!(s.delete_text_by_selection());
    assert_eq!(rows(&s), vec!["adef"]);
    assert_eq!((s.cursor.row, s.cursor.column), (0, 4));
}

#[test]
fn delete_range_of_a_row() {
    let mut s = state(&["abcdef"]);
    assert!(s.delete_range_of_row(0, 4, 1));
    assert_eq!(rows(&s), vec!["aef"]);
    assert!(!s.delete_range_of_row(0, 2, 2));
    assert!(s.delete_range_of_row(0, 1, 10));
    assert_eq!(rows(&s), vec!["a"]);
}

#[test]
fn get_and_cut_text() {
    let s = state(&["abc", "def"]);
    assert_eq!(s.get_text(1, 6), "bc\nde");
    assert_eq!(s.get_text(0, 2), "ab");
    let mut s = state(&["hello world"]);
    s.select(0, 5);
    assert_eq!(s.cut_text(), "hello");
    assert_eq!(rows(&s), vec![" world"]);
}

#[test]
fn selecting() {
    let mut s = state(&["abc", "de"]);
    s.select_all();
    assert_eq!((s.selection.start, s.selection.end), (0, 6));
    s.set_cursor(TheCursor::new(1, 0));
    s.select_row();
    assert_eq!((s.selection.start, s.selection.end), (4, 6));
    s.reset_selection();
    assert!(s.selection.is_none());
}

#[test]
fn selected_ranges_of_rows() {
    let mut s = state(&["abc", "de"]);
    assert_eq!(s.find_selected_range_of_row(0), None);
    s.select(3, 4);
    assert_eq!(s.find_selected_range_of_row(0), Some((3, 4)));
    s.select(0, 4);
    assert_eq!(s.find_selected_range_of_row(0), Some((0, 3)));
    assert!(s.is_row_all_selected(0));
    s.select(1, 6);
    assert_eq!(s.find_selected_range_of_row(1), Some((4, 6)));
    assert!(!s.is_row_all_selected(0));
}

#[test]
fn beginning_spaces() {
    let s = state(&["  ab", "   ", "x"]);
    assert_eq!(s.find_beginning_spaces_of_row(0), Some(2));
    assert_eq!(s.find_beginning_spaces_of_row(1), None);
    assert_eq!(s.find_beginning_spaces_of_row(2), Some(0));
}

#[test]
fn move_lines_down_and_up() {
    let mut s = state(&["a", "b", "c"]);
    assert!(s.move_lines_down());
    assert_eq!(rows(&s), vec!["b", "a", "c"]);
    assert_eq!(s.cursor.row, 1);
    assert!(s.move_lines_up());
    assert_eq!(rows(&s), vec!["a", "b", "c"]);
    assert_eq!(s.cursor.row, 0);
    assert!(!s.move_lines_up());
}

#[test]
fn move_selected_lines_down() {
    let mut s = state(&["a", "b", "c"]);
    s.select(0, 1);
    assert!(s.move_lines_down());
    assert_eq!(rows(&s), vec!["b", "a", "c"]);
    assert_eq!((s.selection.start, s.selection.end), (2, 3));
}

#[test]
fn quick_select_word_and_space() {
    let mut s = state(&["foo bar"]);
    s.set_cursor(TheCursor::new(0, 5));
    s.quick_select();
    assert_eq!((s.selection.start, s.selection.end), (4, 7));
    s.set_cursor(TheCursor::new(0, 3));
    s.quick_select();
    assert_eq!((s.selection.start, s.selection.end), (3, 4));
    s.set_cursor(TheCursor::new(0, 0));
    s.quick_select();
    assert_eq!((s.selection.start, s.selection.end), (0, 3));
}

#[test]
fn quick_select_symbols() {
    let mut s = state(&["a+-b"]);
    s.set_cursor(TheCursor::new(0, 1));
    s.quick_select();
    assert_eq!((s.selection.start, s.selection.end), (1, 3));
}

#[test]
fn quick_select_line_breaks() {
    let mut s = state(&["ab", "cd"]);
    s.set_cursor(TheCursor::new(0, 2));
    s.quick_select();
    assert_eq!((s.selection.start, s.selection.end), (2, 3));
    let mut s = state(&["ab", ""]);
    s.set_cursor(TheCursor::new(1, 0));
    s.quick_select();
    assert_eq!((s.selection.start, s.selection.end), (2, 3));
    assert_eq!((s.cursor.row, s.cursor.column), (0, 2));
}

#[test]
fn reset_state() {
    let mut s = state(&["ab", "cd"]);
    s.set_cursor(TheCursor::new(1, 1));
    s.select(0, 2);
    s.reset();
    assert_eq!(rows(&s), vec![String::new()]);
    assert!(s.cursor.is_zero());
    assert!(s.selection.is_none());
}

#[test]
fn delete_text_keeps_a_row() {
    let mut s = state(&["ab"]);
    s.select_all();
    assert!(s.delete_text());
    assert_eq!(rows(&s), vec![String::new()]);
}

#[test]
fn quick_select_tabs_as_space() {
    let mut s = state(&["ab\t\tcd"]);
    s.set_cursor(TheCursor::new(0, 2));
    s.quick_select();
    assert_eq!((s.selection.start, s.selection.end), (2, 4));
}

#[test]
fn moving_lines_with_a_reversed_selection() {
    let mut s = TheTextEditState::default();
    s.rows = vec!["ab".to_string(), "cd".to_string(), "ef".to_string()];
    s.set_cursor(TheCursor::new(1, 0));
    s.select(5, 1);
    assert!(s.move_lines_down());
    assert_eq!(s.rows, vec!["ab", "cd", "ef"]);
    assert_eq!((s.selection.start, s.selection.end), (8, 4));
    assert_eq!(s.cursor.row, 2);
    assert!(s.move_lines_up());
    assert_eq!(s.rows, vec!["ab", "cd", "ef"]);
    assert_eq!((s.selection.start, s.selection.end), (5, 1));
    assert_eq!(s.cursor.row, 1);
}
