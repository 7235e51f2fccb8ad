//! What each edit does to the abstract state of a text being edited.
use vstd::prelude::*;

use crate::model::{
    byte_len, chars_before_byte, glyph_count, glyph_offset, is_row_of_index, join_rows,
    lemma_row_of_index_unique, row_end, row_start, split_lines, char_is_whitespace,
    char_is_alphanumeric,
};
use crate::textedit::{selected_range_of_row, TheCursor, TheSelection};

verus! {

/// Abstract state of a text being edited.
pub struct TextView {
    pub rows: Seq<Seq<char>>,
    pub cursor: TheCursor,
    pub selection: TheSelection,
    pub auto_bracket_completion: bool,
    pub auto_indent: bool,
    pub tab_spaces: usize,
}

/// The row holding a cursor index (see `is_row_of_index`).
pub open spec fn row_of_index(rows: Seq<Seq<char>>, index: int) -> int {
    choose|r: int| is_row_of_index(rows, index, r)
}

pub proof fn lemma_row_of_index(rows: Seq<Seq<char>>, index: int, r: int)
    requires
        is_row_of_index(rows, index, r),
    ensures
        row_of_index(rows, index) == r,
{
    lemma_row_of_index_unique(rows, index, r, row_of_index(rows, index));
}

pub open spec fn min_int(a: int, b: int) -> int {
    if a < b {
        a
    } else {
        b
    }
}

pub open spec fn max_int(a: int, b: int) -> int {
    if a < b {
        b
    } else {
        a
    }
}

/// `t` inserted into `s` at character offset `off`.
pub open spec fn insert_chars(s: Seq<char>, off: int, t: Seq<char>) -> Seq<char> {
    s.take(off) + t + s.skip(off)
}

/// Glyph bounds of a deletion between glyph columns `a` and `b` of `s`: the smaller of them,
/// and the larger one limited to the glyphs of `s`.
pub open spec fn deletion_bounds(s: Seq<char>, a: int, b: int) -> (int, int) {
    (min_int(a, b), min_int(max_int(a, b), glyph_count(s) as int))
}

/// `s` with the glyphs between columns `a` and `b` removed.
pub open spec fn delete_glyphs(s: Seq<char>, a: int, b: int) -> Seq<char> {
    let (left, right) = deletion_bounds(s, a, b);
    if left == right {
        s
    } else {
        let ol = glyph_offset(s, left);
        let or = glyph_offset(s, right);
        s.take(min_int(ol, or)) + s.skip(or)
    }
}

/// Cursor index of the cursor.
pub open spec fn cursor_index(v: TextView) -> int {
    row_start(v.rows, v.cursor.row as int) + v.cursor.column
}

/// Range of the selection within its first row; past the row's end when none is selected there.
pub open spec fn first_row_range(rows: Seq<Seq<char>>, sel: TheSelection) -> (int, int) {
    let sr = row_of_index(rows, sel.start as int);
    let re = row_end(rows, sr) as int;
    match selected_range_of_row(rows, sel, sr) {
        Some(p) => (p.0 as int, p.1 as int),
        None => (re, re + 1),
    }
}

/// Rows once the rows spanned by the selection are merged: the part of its last row after the
/// selection joins its first row (with a linebreak when the selection is exactly the first
/// row's linebreak), and the rows in between are removed.
pub open spec fn merged_rows(rows: Seq<Seq<char>>, sel: TheSelection) -> Seq<Seq<char>> {
    let sr = row_of_index(rows, sel.start as int);
    let er = row_of_index(rows, sel.end as int);
    if sr != er {
        let re = row_end(rows, sr) as int;
        let tail = delete_glyphs(rows[er], 0, sel.end - row_start(rows, er));
        let head = if sel.end == re && sel.end - 1 == sel.start {
            rows[sr].push('\n')
        } else {
            rows[sr]
        };
        rows.take(sr) + seq![head + tail] + rows.skip(er + 1)
    } else {
        rows
    }
}

/// Rows once the selection is deleted.
pub open spec fn rows_without_selection(rows: Seq<Seq<char>>, sel: TheSelection) -> Seq<Seq<char>> {
    let sr = row_of_index(rows, sel.start as int);
    let rs = row_start(rows, sr) as int;
    let range = first_row_range(rows, sel);
    let rows1 = merged_rows(rows, sel);
    rows1.update(sr, delete_glyphs(rows1[sr], range.0 - rs, range.1 - rs))
}

/// State after deleting the selection: nothing changes when it is empty; else the selected
/// text goes, a cursor inside it moves to where it started, a cursor after it keeps its
/// place in the remaining text, and the selection is reset.
pub open spec fn after_delete_selection(v: TextView) -> TextView {
    let sel = v.selection;
    if sel.start == sel.end {
        v
    } else {
        let rows = v.rows;
        let sr = row_of_index(rows, sel.start as int);
        let rs = row_start(rows, sr) as int;
        let left = first_row_range(rows, sel).0 - rs;
        let rows2 = rows_without_selection(rows, sel);
        let ci = cursor_index(v);
        let cursor = if ci >= sel.start {
            if ci < sel.end {
                TheCursor { row: sr as usize, column: left as usize }
            } else {
                let nci = ci - (sel.end - sel.start);
                let r = row_of_index(rows2, nci);
                TheCursor { row: r as usize, column: (nci - row_start(rows2, r)) as usize }
            }
        } else {
            v.cursor
        };
        TextView {
            rows: rows2,
            cursor,
            selection: TheSelection { start: 0, end: 0 },
            auto_bracket_completion: v.auto_bracket_completion,
            auto_indent: v.auto_indent,
            tab_spaces: v.tab_spaces,
        }
    }
}

/// `n` spaces.
pub open spec fn spaces(n: nat) -> Seq<char> {
    Seq::new(n, |i: int| ' ')
}

/// Index of the first character of `s` that is not a space.
pub open spec fn first_non_space(s: Seq<char>) -> Option<int> {
    if exists|i: int| 0 <= i < s.len() && s[i] != ' ' {
        Some(choose|i: int| 0 <= i < s.len() && s[i] != ' ' && forall|j: int| 0 <= j < i ==> s[j] == ' ')
    } else {
        None
    }
}

/// Byte offset just after the last character before character `k` of `s` that is not a
/// space.
pub open spec fn last_non_space_end(s: Seq<char>, k: int) -> Option<int>
    decreases k,
{
    if k <= 0 {
        None
    } else if s[k - 1] != ' ' {
        Some(byte_len(s.take(k - 1)) + 1int)
    } else {
        last_non_space_end(s, k - 1)
    }
}

/// The cursor moved one position back (see `move_cursor_left`).
pub open spec fn cursor_left(rows: Seq<Seq<char>>, c: TheCursor) -> TheCursor {
    if c.row == 0 && c.column == 0 {
        c
    } else if c.column == 0 {
        TheCursor { row: (c.row - 1) as usize, column: glyph_count(rows[c.row - 1]) as usize }
    } else {
        TheCursor { row: c.row, column: (c.column - 1) as usize }
    }
}

/// The cursor moved one position forward (see `move_cursor_right`).
pub open spec fn cursor_right(rows: Seq<Seq<char>>, c: TheCursor) -> TheCursor {
    let n = glyph_count(rows[c.row as int]);
    if c.row == rows.len() - 1 && c.column == n {
        c
    } else if c.column == n {
        TheCursor { row: (c.row + 1) as usize, column: 0 }
    } else {
        TheCursor { row: c.row, column: (c.column + 1) as usize }
    }
}

/// The cursor moved one row up (see `move_cursor_up`).
pub open spec fn cursor_up(rows: Seq<Seq<char>>, c: TheCursor) -> TheCursor {
    if c.row == 0 {
        c
    } else {
        let n = glyph_count(rows[c.row - 1]);
        TheCursor { row: (c.row - 1) as usize, column: if c.column < n { c.column } else { n as usize } }
    }
}

/// The cursor moved one row down (see `move_cursor_down`).
pub open spec fn cursor_down(rows: Seq<Seq<char>>, c: TheCursor) -> TheCursor {
    if c.row == rows.len() - 1 {
        c
    } else {
        let n = glyph_count(rows[c.row + 1]);
        TheCursor { row: (c.row + 1) as usize, column: if c.column < n { c.column } else { n as usize } }
    }
}

/// The view with other rows and cursor.
pub open spec fn with_rows_cursor(v: TextView, rows: Seq<Seq<char>>, cursor: TheCursor) -> TextView {
    TextView { rows, cursor, ..v }
}

/// Where a backspace starts deleting in a row whose cursor follows a space: after the last
/// non-space character before the cursor, or else back to the previous tab stop.
pub open spec fn space_deletion_start(s: Seq<char>, column: int, tab_spaces: int) -> int {
    match last_non_space_end(s, chars_before_byte(s, column)) {
        Some(b) => b,
        None => ((column - 1) / tab_spaces) * tab_spaces,
    }
}

/// State after a backspace with nothing selected, and whether something was deleted.
pub open spec fn after_delete_char(v: TextView) -> (TextView, bool) {
    let rows = v.rows;
    let r = v.cursor.row as int;
    let c = v.cursor.column as int;
    if r == 0 && c == 0 {
        (v, false)
    } else if c == 0 {
        // Join the row to the previous one
        let prev = rows[r - 1];
        let merged = prev + rows[r];
        let rows2 = rows.remove(r).update(r - 1, merged);
        let n = glyph_count(prev);
        let m = glyph_count(merged);
        (with_rows_cursor(v, rows2, TheCursor { row: (r - 1) as usize, column: if n < m { n as usize } else { m as usize } }), true)
    } else {
        let s = rows[r];
        let ds = space_deletion_start(s, c, v.tab_spaces as int);
        let db = crate::textops::deletion_bounds(s, ds, c);
        let nb = crate::textops::deletion_bounds(s, c - 1, c);
        if s[c - 1] == ' ' && db.0 != db.1 {
            (with_rows_cursor(v, rows.update(r, delete_glyphs(s, ds, c)), TheCursor { row: r as usize, column: ds as usize }), true)
        } else if nb.0 != nb.1 {
            (with_rows_cursor(v, rows.update(r, delete_glyphs(s, c - 1, c)), TheCursor { row: r as usize, column: (c - 1) as usize }), true)
        } else {
            (v, false)
        }
    }
}

/// Rows after splitting row `r` at glyph column `c`, the new row starting with `n` spaces.
pub open spec fn rows_with_new_row(rows: Seq<Seq<char>>, r: int, c: int, n: nat) -> Seq<Seq<char>> {
    let s = rows[r];
    if c == 0 {
        rows.insert(r, spaces(n))
    } else if c >= glyph_count(s) {
        rows.insert(r + 1, spaces(n))
    } else {
        let off = glyph_offset(s, c);
        rows.update(r, s.take(off)).insert(r + 1, spaces(n) + s.skip(off))
    }
}

/// Number of spaces a new row starts with.
pub open spec fn indent_of_new_row(v: TextView) -> nat {
    if v.auto_indent {
        match first_non_space(v.rows[v.cursor.row as int]) {
            Some(i) => i as nat,
            None => v.cursor.column as nat,
        }
    } else {
        0
    }
}

/// State after inserting a row break at the cursor, once the selection is gone.
pub open spec fn after_insert_row_here(v: TextView) -> TextView {
    let n = indent_of_new_row(v);
    let rows2 = rows_with_new_row(v.rows, v.cursor.row as int, v.cursor.column as int, n);
    with_rows_cursor(v, rows2, cursor_down(rows2, TheCursor { row: v.cursor.row, column: n as usize }))
}

/// State after inserting a row break: the selection is deleted first.
pub open spec fn after_insert_row(v: TextView) -> TextView {
    after_insert_row_here(after_delete_selection(v))
}

/// State after typing `c` at the cursor, once the selection is gone.
pub open spec fn after_insert_char_here(v: TextView, c: char) -> TextView {
    let r = v.cursor.row as int;
    let s = v.rows[r];
    let rows2 = v.rows.update(r, insert_chars(s, glyph_offset(s, v.cursor.column as int), seq![c]));
    with_rows_cursor(v, rows2, cursor_right(rows2, v.cursor))
}

/// The closing bracket of an opening one.
pub open spec fn closing_bracket(c: char) -> char {
    if c == '(' {
        ')'
    } else if c == '{' {
        '}'
    } else if c == '[' {
        ']'
    } else {
        '>'
    }
}

pub open spec fn is_opening_bracket(c: char) -> bool {
    c == '(' || c == '{' || c == '[' || c == '<'
}

/// Where a bracket goes around the selection: row and glyph column of the opening one (`end`
/// false) or of the closing one (`end` true), the latter counted once the opening one is in.
pub open spec fn bracket_place(rows: Seq<Seq<char>>, sel: TheSelection, end: bool) -> (int, int) {
    let row = row_of_index(rows, if end { sel.end as int } else { sel.start as int });
    let rs = row_start(rows, row) as int;
    let re = row_end(rows, row) as int;
    let p = match selected_range_of_row(rows, sel, row) {
        Some(p) => (p.0 as int, p.1 as int),
        None => (re, re + 1),
    };
    if end {
        (row, p.1 - rs + 1)
    } else {
        (row, p.0 - rs)
    }
}

/// `t` inserted into row `r` at glyph column `c`.
pub open spec fn insert_at_glyph(rows: Seq<Seq<char>>, r: int, c: int, t: Seq<char>) -> Seq<Seq<char>> {
    rows.update(r, insert_chars(rows[r], glyph_offset(rows[r], c), t))
}

/// State after typing an opening bracket with bracket completion on: a pair of brackets at
/// the cursor when nothing is selected, else brackets around the selection.
pub open spec fn after_insert_brackets(v: TextView, left: char) -> TextView {
    let right = closing_bracket(left);
    let sel = v.selection;
    if sel.start == sel.end {
        let rows2 = insert_at_glyph(v.rows, v.cursor.row as int, v.cursor.column as int, seq![left, right]);
        with_rows_cursor(v, rows2, TheCursor { row: v.cursor.row, column: (v.cursor.column + 1) as usize })
    } else {
        let (r0, c0) = bracket_place(v.rows, sel, false);
        let (r1, c1) = bracket_place(v.rows, sel, true);
        let rows_a = insert_at_glyph(v.rows, r0, c0, seq![left]);
        let rows_b = insert_at_glyph(rows_a, r1, c1, seq![right]);
        let cursor = if r0 == v.cursor.row {
            TheCursor { row: v.cursor.row, column: (v.cursor.column + 1) as usize }
        } else {
            v.cursor
        };
        TextView {
            rows: rows_b,
            cursor,
            selection: TheSelection { start: (sel.start + 1) as usize, end: (sel.end + 1) as usize },
            ..v
        }
    }
}

/// State after typing `c`.
pub open spec fn after_insert_char(v: TextView, c: char) -> TextView {
    if v.auto_bracket_completion && is_opening_bracket(c) {
        after_insert_brackets(v, c)
    } else {
        after_insert_char_here(after_delete_selection(v), c)
    }
}

/// State after inserting `t` at the cursor, once the selection is gone: the first line of
/// `t` joins the cursor's row, each further line starts a new row, and what followed the
/// cursor ends the last one; the cursor goes to the end of the inserted text.
pub open spec fn after_insert_text_here(v: TextView, t: Seq<char>) -> TextView {
    let r = v.cursor.row as int;
    let s = v.rows[r];
    let off = glyph_offset(s, v.cursor.column as int);
    let lines = split_lines(t);
    if lines.len() == 1 {
        with_rows_cursor(
            v,
            v.rows.update(r, insert_chars(s, off, t)),
            TheCursor { row: v.cursor.row, column: (v.cursor.column + glyph_count(t)) as usize },
        )
    } else {
        let n = lines.len();
        let new_rows = seq![s.take(off) + lines[0]] + lines.subrange(1, n - 1) + seq![lines[n - 1] + s.skip(off)];
        with_rows_cursor(
            v,
            v.rows.take(r) + new_rows + v.rows.skip(r + 1),
            TheCursor { row: (r + n - 1) as usize, column: glyph_count(lines[n - 1]) as usize },
        )
    }
}

/// State after inserting `t`.
pub open spec fn after_insert_text(v: TextView, t: Seq<char>) -> TextView {
    after_insert_text_here(after_delete_selection(v), t)
}

/// Characters of row `r` from byte offset `a` up to byte offset `b`.
pub open spec fn row_bytes(rows: Seq<Seq<char>>, r: int, a: int, b: int) -> Seq<char> {
    rows[r].subrange(chars_before_byte(rows[r], a), chars_before_byte(rows[r], b))
}

/// Text between two cursor indices, where the column within a row is taken as a byte offset
/// into it.
pub open spec fn text_between(rows: Seq<Seq<char>>, a: int, b: int) -> Seq<char> {
    let sr = row_of_index(rows, a);
    let sc = a - row_start(rows, sr);
    let er = row_of_index(rows, b);
    let ec = b - row_start(rows, er);
    if sr == er {
        row_bytes(rows, sr, sc, ec)
    } else {
        rows[sr].skip(chars_before_byte(rows[sr], sc)) + seq!['\n'] + join_rows(
            rows.subrange(sr + 1, er).push(rows[er].take(chars_before_byte(rows[er], ec))),
        )
    }
}

/// Rows with the block of rows `start..=end` moved one row up; the same rows when the block
/// is empty (`start` after `end`).
pub open spec fn rows_moved_up(rows: Seq<Seq<char>>, start: int, end: int) -> Seq<Seq<char>> {
    if start <= end {
        rows.take(start - 1) + rows.subrange(start, end + 1) + seq![rows[start - 1]] + rows.skip(
            end + 1,
        )
    } else {
        rows
    }
}

/// Rows with the block of rows `start..=end` moved one row down; the same rows when the block
/// is empty (`start` after `end`).
pub open spec fn rows_moved_down(rows: Seq<Seq<char>>, start: int, end: int) -> Seq<Seq<char>> {
    if start <= end {
        rows.take(start) + seq![rows[end + 1]] + rows.subrange(start, end + 1) + rows.skip(end + 2)
    } else {
        rows
    }
}

/// What deleting the selection asks of the machine: rows to work on, a cursor index that fits,
/// and a text that fits before and after.
pub open spec fn selection_deletable(v: TextView) -> bool {
    v.selection.start != v.selection.end ==> {
        &&& v.rows.len() > 0
        &&& v.selection.start <= v.selection.end
        &&& crate::model::text_len(v.rows) < usize::MAX
        &&& v.cursor.row <= v.rows.len()
        &&& cursor_index(v) <= usize::MAX
        &&& crate::model::text_fits(after_delete_selection(v).rows)
    }
}

/// State after the delete key, and whether something was deleted: the selection goes when
/// there is one, else the glyph before the cursor; a text left without rows gets an empty one.
pub open spec fn after_delete_text(v: TextView) -> (TextView, bool) {
    let (v2, deleted) = if v.selection.start != v.selection.end {
        (after_delete_selection(v), true)
    } else {
        after_delete_char(v)
    };
    if v2.rows.len() == 0 {
        (after_insert_row(v2), deleted)
    } else {
        (v2, deleted)
    }
}

/// What the backspace of `after_delete_char` asks: a cursor on a row, and before a space a
/// cursor column that is a byte boundary of the row and a positive tab width.
pub open spec fn char_deletable(v: TextView) -> bool {
    let r = v.cursor.row as int;
    let c = v.cursor.column as int;
    &&& c == 0 && r > 0 ==> r < v.rows.len()
    &&& c > 0 ==> {
        &&& r < v.rows.len()
        &&& c <= v.rows[r].len()
        &&& v.rows[r][c - 1] == ' ' ==> crate::model::is_byte_boundary(v.rows[r], c) && v.tab_spaces > 0
    }
}

/// What inserting a row break at the cursor asks, once the selection is gone.
pub open spec fn row_insertable_here(v: TextView) -> bool {
    &&& v.cursor.row <= v.rows.len()
    &&& (v.auto_indent || v.cursor.column != 0) ==> v.cursor.row < v.rows.len()
}

/// What typing a character at the cursor asks, once the selection is gone.
pub open spec fn char_insertable_here(v: TextView, c: char) -> bool {
    &&& v.cursor.row < v.rows.len()
    &&& ({
        let r = v.cursor.row as int;
        let s = v.rows[r];
        let rows2 = v.rows.update(r, insert_chars(s, glyph_offset(s, v.cursor.column as int), seq![c]));
        v.cursor.column != glyph_count(rows2[r]) ==> v.cursor.column < usize::MAX
    })
}

/// What surrounding the cursor or the selection with brackets asks.
pub open spec fn brackets_insertable(v: TextView) -> bool {
    if v.selection.start == v.selection.end {
        &&& v.cursor.row < v.rows.len()
        &&& v.cursor.column < usize::MAX
    } else {
        &&& v.rows.len() > 0
        &&& crate::model::text_len(v.rows) + 1 < usize::MAX
        &&& v.selection.end < usize::MAX
        &&& v.selection.start < usize::MAX
        &&& v.cursor.column < usize::MAX
    }
}

/// What typing `c` asks.
pub open spec fn char_insertable(v: TextView, c: char) -> bool {
    if v.auto_bracket_completion && is_opening_bracket(c) {
        brackets_insertable(v)
    } else {
        &&& selection_deletable(v)
        &&& char_insertable_here(after_delete_selection(v), c)
    }
}

/// What inserting `t` at the cursor asks, once the selection is gone.
pub open spec fn text_insertable_here(v: TextView, t: Seq<char>) -> bool {
    &&& v.cursor.row < v.rows.len()
    &&& crate::model::text_fits(v.rows)
    &&& cursor_index(v) + glyph_count(t) <= usize::MAX
    &&& v.cursor.column + glyph_count(t) <= usize::MAX
    &&& v.cursor.row + split_lines(t).len() <= usize::MAX
}

/// State after moving the rows `start..=end` one row up (`dir` -1) or down (`dir` 1), and
/// whether they moved: they stay when `dir` is 0 or the block would leave the text; the
/// cursor row follows, and a selection shifts by the length of the row moved across.
pub open spec fn after_move_lines(v: TextView, start: int, end: int, dir: int) -> (TextView, bool) {
    let len = v.rows.len() as int;
    let e = end + dir;
    if dir == 0 || start + dir < 0 || (if e < 0 { -e } else { e }) >= len {
        (v, false)
    } else if dir < 0 {
        let shift = glyph_count(v.rows[start - 1]) + 1;
        let sel = if v.selection.start == v.selection.end {
            v.selection
        } else {
            TheSelection { start: (v.selection.start - shift) as usize, end: (v.selection.end - shift) as usize }
        };
        (TextView {
            rows: rows_moved_up(v.rows, start, end),
            cursor: TheCursor { row: (v.cursor.row - 1) as usize, column: v.cursor.column },
            selection: sel,
            ..v
        }, true)
    } else {
        let shift = glyph_count(v.rows[end + 1]) + 1;
        let sel = if v.selection.start == v.selection.end {
            v.selection
        } else {
            TheSelection { start: (v.selection.start + shift) as usize, end: (v.selection.end + shift) as usize }
        };
        (TextView {
            rows: rows_moved_down(v.rows, start, end),
            cursor: TheCursor { row: (v.cursor.row + 1) as usize, column: v.cursor.column },
            selection: sel,
            ..v
        }, true)
    }
}

/// Rows spanned by the cursor's row, or by the selection when there is one.
pub open spec fn lines_to_move(v: TextView) -> (int, int) {
    if v.selection.start == v.selection.end {
        (v.cursor.row as int, v.cursor.row as int)
    } else {
        (row_of_index(v.rows, v.selection.start as int), row_of_index(v.rows, v.selection.end as int))
    }
}

/// What moving the rows `start..=end` by `dir` asks of the machine.
pub open spec fn lines_movable(v: TextView, start: int, end: int, dir: int) -> bool {
    let len = v.rows.len() as int;
    let e = end + dir;
    &&& -1 <= dir <= 1
    &&& len <= isize::MAX
    &&& 0 <= start < len
    &&& 0 <= end < len
    &&& !(dir == 0 || start + dir < 0 || (if e < 0 { -e } else { e }) >= len) ==> {
        if dir < 0 {
            let shift = glyph_count(v.rows[start - 1]) + 1;
            &&& v.cursor.row >= 1
            &&& v.selection.start != v.selection.end ==> v.selection.start >= shift && v.selection.end >= shift
        } else {
            let shift = glyph_count(v.rows[end + 1]) + 1;
            &&& v.cursor.row + 1 <= usize::MAX
            &&& v.selection.start != v.selection.end ==> v.selection.start + shift <= usize::MAX
                && v.selection.end + shift <= usize::MAX
        }
    }
}

/// The text between two cursor indices can be read: its columns fall between characters and
/// come in order.
pub open spec fn text_between_readable(rows: Seq<Seq<char>>, a: int, b: int) -> bool {
    let sr = row_of_index(rows, a);
    let sc = a - row_start(rows, sr);
    let er = row_of_index(rows, b);
    let ec = b - row_start(rows, er);
    &&& crate::model::is_byte_boundary(rows[sr], sc)
    &&& crate::model::is_byte_boundary(rows[er], ec)
    &&& if sr == er {
        sc <= ec
    } else {
        sr < er
    }
}

/// A character that may belong to a word.
pub open spec fn word_char(c: char) -> bool {
    char_is_alphanumeric(c) || c == '_'
}

/// Whether `c` ends a run of characters of the same kind as `first`: white space, word
/// characters, or anything else.
pub open spec fn ends_run(first: char, c: char) -> bool {
    if char_is_whitespace(first) {
        !char_is_whitespace(c)
    } else if word_char(first) {
        !word_char(c)
    } else {
        char_is_whitespace(c) || word_char(c)
    }
}

/// Byte offset just after the last character before character `k` of `s` that ends the run
/// of `first`; 0 when there is none.
pub open spec fn run_start(s: Seq<char>, first: char, k: int) -> int
    decreases k,
{
    if k <= 0 {
        0
    } else if ends_run(first, s[k - 1]) {
        byte_len(s.take(k - 1)) + 1int
    } else {
        run_start(s, first, k - 1)
    }
}

/// Byte offset of the first character from character `k` of `s` on that ends the run of
/// `first`; the byte length of `s` when there is none.
pub open spec fn run_end(s: Seq<char>, first: char, k: int) -> int
    decreases s.len() - k,
{
    if k >= s.len() {
        byte_len(s) as int
    } else if ends_run(first, s[k]) {
        byte_len(s.take(k)) as int
    } else {
        run_end(s, first, k + 1)
    }
}

/// State after a quick select (double click) at the cursor, where the cursor column is taken
/// as a byte offset into its row: past the end of an empty last row the linebreak before it
/// is selected and the cursor moves back; past the end of another row its linebreak is
/// selected; else the run of white space, word characters or other characters around the
/// cursor is selected.
pub open spec fn after_quick_select(v: TextView) -> TextView {
    let rows = v.rows;
    let r = v.cursor.row as int;
    let s = rows[r];
    let rs = row_start(rows, r) as int;
    let re = row_end(rows, r) as int;
    let bl = byte_len(s) as int;
    let col = v.cursor.column as int;
    if col >= bl && r == rows.len() - 1 && s.len() == 0 {
        TextView {
            selection: TheSelection { start: (rs - 1) as usize, end: rs as usize },
            cursor: cursor_left(rows, v.cursor),
            ..v
        }
    } else if col >= bl && r != rows.len() - 1 {
        TextView { selection: TheSelection { start: (re - 1) as usize, end: re as usize }, ..v }
    } else {
        let c = if col < bl - 1 { col } else { bl - 1 };
        let first = s[c];
        let start = run_start(s, first, crate::model::chars_before_byte(s, c));
        let end = run_end(s, first, crate::model::chars_before_byte(s, c + 1));
        TextView { selection: TheSelection { start: (rs + start) as usize, end: (rs + end) as usize }, ..v }
    }
}

/// What a quick select asks: a cursor on a row whose bytes can be counted; before an empty
/// last row a row before it; else the character at the column and byte offsets that fall
/// between characters around it.
pub open spec fn quick_selectable(v: TextView) -> bool {
    let rows = v.rows;
    let r = v.cursor.row as int;
    &&& 0 <= r < rows.len()
    &&& crate::model::text_fits(rows)
    &&& byte_len(rows[r]) <= usize::MAX
    &&& ({
        let s = rows[r];
        let rs = row_start(rows, r) as int;
        let bl = byte_len(s) as int;
        let col = v.cursor.column as int;
        if col >= bl && r == rows.len() - 1 && s.len() == 0 {
            rs >= 1
        } else if col >= bl && r != rows.len() - 1 {
            true
        } else {
            let c = if col < bl - 1 { col } else { bl - 1 };
            &&& c < s.len()
            &&& crate::model::is_byte_boundary(s, c)
            &&& crate::model::is_byte_boundary(s, c + 1)
            &&& rs + bl <= usize::MAX
        }
    })
}

} // verus!
