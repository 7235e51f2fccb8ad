use theframework::textedit::{TheCursor, TheTextEditState};

fn state(rows: &[&str]) -> TheTextEditState {
    let mut s = TheTextEditState::default();
    s.rows = rows.iter().map(|r| r.to_string()).collect();
    s
}

#[test]
fn text_round_trips_through_rows() {
    for text in ["", "a", "a\n", "\n\n", "ab\ncd\n\nef"] {
        let mut s = TheTextEditState::default();
        s.set_text(text.to_string());
        assert_eq!(s.to_text(), text);
    }
}

#[test]
fn cursor_index_round_trips() {
    let mut s = state(&["abc", "", "de"]);
    for (row, col) in [(0, 0), (0, 3), (1, 0), (2, 0), (2, 2)] {
        s.set_cursor(TheCursor::new(row, col));
        let i = s.find_cursor_index();
        assert_eq!(s.find_row_col_of_index(i), (row, col));
    }
}

#[test]
fn left_then_right_returns() {
    let mut s = state(&["abc", "de"]);
    s.set_cursor(TheCursor::new(1, 0));
    assert!(s.move_cursor_left());
    assert!(s.move_cursor_right());
    assert_eq!((s.cursor.row, s.cursor.column), (1, 0));
}

#[test]
fn right_then_left_returns() {
    let mut s = state(&["abc", "de"]);
    s.set_cursor(TheCursor::new(0, 3));
    assert!(s.move_cursor_right());
    assert!(s.move_cursor_left());
    assert_eq!((s.cursor.row, s.cursor.column), (0, 3));
}

#[test]
fn moving_a_row_down_then_up_restores() {
    let mut s = state(&["one", "two", "three"]);
    s.set_cursor(TheCursor::new(1, 2));
    assert!(s.move_lines_down());
    assert!(s.move_lines_up());
    assert_eq!(s.rows, vec!["one", "two", "three"]);
    assert_eq!((s.cursor.row, s.cursor.column), (1, 2));
}

#[test]
fn reading_back_an_insertion() {
    let mut s = state(&["ab", "cd"]);
    s.set_cursor(TheCursor::new(1, 1));
    let (start, end) = s.insert_text("xy\nz".to_string());
    assert_eq!(s.get_text(start, end), "xy\nz");
    let mut s = state(&["ab"]);
    s.set_cursor(TheCursor::new(0, 1));
    let (start, end) = s.insert_text("xyz".to_string());
    assert_eq!(s.get_text(start, end), "xyz");
}

#[test]
fn cutting_all_text() {
    let mut s = state(&["ab", "", "cd"]);
    s.set_cursor(TheCursor::new(2, 1));
    s.select_all();
    assert_eq!(s.cut_text(), "ab\n\ncd");
    assert_eq!(s.rows, vec![String::new()]);
    assert!(s.cursor.is_zero());
    assert!(s.selection.is_none());
    let mut s = state(&["", ""]);
    s.set_cursor(TheCursor::new(1, 0));
    s.select_all();
    assert_eq!(s.cut_text(), "\n");
    assert_eq!(s.rows, vec![String::new()]);
    assert!(s.cursor.is_zero());
}

#[test]
fn moving_a_row_up_then_down_restores() {
    let mut s = state(&["one", "two", "three"]);
    s.set_cursor(TheCursor::new(2, 1));
    assert!(s.move_lines_up());
    assert!(s.move_lines_down());
    assert_eq!(s.rows, vec!["one", "two", "three"]);
    assert_eq!((s.cursor.row, s.cursor.column), (2, 1));
}

#[test]
fn quick_select_twice_keeps_the_state() {
    let mut s = state(&["foo bar", ""]);
    s.set_cursor(TheCursor::new(1, 0));
    s.quick_select();
    let (sel, cur) = ((s.selection.start, s.selection.end), (s.cursor.row, s.cursor.column));
    s.quick_select();
    assert_eq!(((s.selection.start, s.selection.end), (s.cursor.row, s.cursor.column)), (sel, cur));
    s.set_cursor(TheCursor::new(0, 5));
    s.quick_select();
    let sel = (s.selection.start, s.selection.end);
    s.quick_select();
    assert_eq!((s.selection.start, s.selection.end), sel);
}

#[test]
fn cutting_then_pasting_restores() {
    // a stretch across rows, a stretch within a row, and a lone linebreak
    for (start, end, cursor) in [(1, 6, (0, 1)), (4, 6, (1, 2)), (2, 3, (0, 2)), (0, 8, (2, 0))] {
        let mut s = state(&["ab", "cde", "f"]);
        s.set_cursor(TheCursor::new(cursor.0, cursor.1));
        s.select(start, end);
        let cut = s.cut_text();
        assert_eq!(cut, "ab\ncde\nf"[start..end]);
        assert_eq!(s.insert_text(cut), (start, end));
        assert_eq!(s.to_text(), "ab\ncde\nf");
        assert_eq!(s.find_cursor_index(), end);
    }
}

#[test]
fn quick_selecting_plain_text_twice() {
    for (row, col) in [(0, 1), (0, 4), (1, 0), (2, 0)] {
        let mut s = state(&["ab cd", "", "x"]);
        s.set_cursor(TheCursor::new(row, col));
        s.quick_select();
        let once = (s.rows.clone(), s.cursor.row, s.cursor.column, s.selection.start, s.selection.end);
        s.quick_select();
        let twice = (s.rows.clone(), s.cursor.row, s.cursor.column, s.selection.start, s.selection.end);
        assert_eq!(once, twice);
        assert_eq!(s.rows, vec!["ab cd", "", "x"]);
    }
}
