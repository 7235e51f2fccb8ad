//! What single edits do, stated directly over the characters and rows they touch: the word
//! a double click selects, the row a row break starts, the rows a block move shifts, and the
//! brackets a typed opening bracket inserts.
use vstd::prelude::*;

use crate::flattext::{lemma_row_start_prefix, plain, plain_glyphs};
use crate::laws::lemma_ascii_byte_len;
use crate::model::{
    byte_len, char_is_alphanumeric, char_is_whitespace, glyph_count, glyph_offset, is_row_of_index,
    row_len, row_start,
};
use crate::textedit::TheCursor;
use crate::textops::{
    after_delete_selection, after_insert_char, after_insert_row, after_move_lines,
    after_quick_select, ends_run, first_non_space, lines_to_move, quick_selectable, run_end, run_start,
    TextView,
};
use crate::model::{chars_before_byte, lemma_chars_before_byte};

verus! {

/// All characters of a row are one byte long.
pub open spec fn ascii(s: Seq<char>) -> bool {
    forall|i: int| 0 <= i < s.len() ==> (#[trigger] s[i] as u32) < 0x80
}

/// In one-byte text, the run of `first` that reaches back to character `k` starts after the
/// last character before `k` that ends it, or at 0.
proof fn lemma_run_start_ascii(s: Seq<char>, first: char, k: int)
    requires
        ascii(s),
        0 <= k <= s.len(),
    ensures
        0 <= run_start(s, first, k) <= k,
        forall|m: int| run_start(s, first, k) <= m < k ==> !ends_run(first, #[trigger] s[m]),
        run_start(s, first, k) == 0 || ends_run(first, s[run_start(s, first, k) - 1]),
    decreases k,
{
    if k > 0 {
        if ends_run(first, s[k - 1]) {
            lemma_ascii_byte_len(s, k - 1);
        } else {
            lemma_run_start_ascii(s, first, k - 1);
        }
    }
}

/// In one-byte text, the run of `first` from character `k` on ends at the first character
/// from `k` on that ends it, or at the end.
proof fn lemma_run_end_ascii(s: Seq<char>, first: char, k: int)
    requires
        ascii(s),
        0 <= k <= s.len(),
    ensures
        k <= run_end(s, first, k) <= s.len(),
        forall|m: int| k <= m < run_end(s, first, k) ==> !ends_run(first, #[trigger] s[m]),
        run_end(s, first, k) == s.len() || ends_run(first, s[run_end(s, first, k)]),
    decreases s.len() - k,
{
    if k < s.len() {
        if ends_run(first, s[k]) {
            lemma_ascii_byte_len(s, k);
        } else {
            lemma_run_end_ascii(s, first, k + 1);
        }
    } else {
        lemma_ascii_byte_len(s, k);
        assert(s.take(k) =~= s);
    }
}

/// Whether `x` is of the same kind as `first` for a double click: white space goes with
/// white space; a word character (a letter, a digit or `_`) with word characters; any other
/// character with characters that are neither white space nor word characters.
pub open spec fn same_kind(first: char, x: char) -> bool {
    if char_is_whitespace(first) {
        char_is_whitespace(x)
    } else if char_is_alphanumeric(first) || first == '_' {
        char_is_alphanumeric(x) || x == '_'
    } else {
        !char_is_whitespace(x) && !(char_is_alphanumeric(x) || x == '_')
    }
}

/// A double click on a character of a row of one-byte characters (or past the end of the
/// last row, which counts as on its last character) selects the longest run around that
/// character of characters of its kind (see `same_kind`): every selected character is of
/// that kind, and neither character just outside the selection is; the rows and the cursor
/// stay.
pub proof fn law_quick_select_run(v: TextView)
    requires
        quick_selectable(v),
        v.cursor.row < v.rows.len(),
        ascii(v.rows[v.cursor.row as int]),
        v.rows[v.cursor.row as int].len() > 0,
        v.cursor.column < v.rows[v.cursor.row as int].len() || v.cursor.row == v.rows.len() - 1,
    ensures
        ({
            let s = v.rows[v.cursor.row as int];
            let c = if v.cursor.column < s.len() { v.cursor.column as int } else { s.len() - 1 };
            let rs = row_start(v.rows, v.cursor.row as int) as int;
            let w = after_quick_select(v);
            let i = w.selection.start - rs;
            let j = w.selection.end - rs;
            &&& 0 <= i <= c < j <= s.len()
            &&& forall|k: int| i <= k < j ==> same_kind(s[c], #[trigger] s[k])
            &&& i == 0 || !same_kind(s[c], s[i - 1])
            &&& j == s.len() || !same_kind(s[c], s[j])
            &&& w.rows == v.rows
            &&& w.cursor == v.cursor
        }),
{
    let rows = v.rows;
    let r = v.cursor.row as int;
    let s = rows[r];
    let col = if v.cursor.column < s.len() { v.cursor.column as int } else { s.len() - 1 };
    let first = s[col];
    lemma_ascii_byte_len(s, s.len() as int);
    assert(s.take(s.len() as int) =~= s);
    assert(byte_len(s) == s.len());
    lemma_ascii_byte_len(s, col);
    lemma_chars_before_byte(s, col);
    lemma_ascii_byte_len(s, col + 1);
    lemma_chars_before_byte(s, col + 1);
    assert(chars_before_byte(s, col) == col);
    assert(chars_before_byte(s, col + 1) == col + 1);
    lemma_run_start_ascii(s, first, col);
    lemma_run_end_ascii(s, first, col + 1);
    let start = run_start(s, first, col);
    let end = run_end(s, first, col + 1);
    let rs = row_start(rows, r) as int;
    let w = after_quick_select(v);
    assert(w.selection.start == rs + start);
    assert(w.selection.end == rs + end);
    assert forall|k: int| start <= k < end implies same_kind(first, #[trigger] s[k]) by {
        if k != col {
            assert(!ends_run(first, s[k]));
        }
    }
}

/// A double click past the end of a row that is not the last selects its linebreak; the rows
/// and the cursor stay.
pub proof fn law_quick_select_linebreak(v: TextView)
    requires
        quick_selectable(v),
        v.cursor.row < v.rows.len() - 1,
        ascii(v.rows[v.cursor.row as int]),
        v.cursor.column >= v.rows[v.cursor.row as int].len(),
    ensures
        ({
            let w = after_quick_select(v);
            &&& w.selection.start + 1 == w.selection.end
            &&& w.selection.end == row_start(v.rows, v.cursor.row + 1)
            &&& w.rows == v.rows
            &&& w.cursor == v.cursor
        }),
{
    let s = v.rows[v.cursor.row as int];
    let r = v.cursor.row as int;
    lemma_ascii_byte_len(s, s.len() as int);
    assert(s.take(s.len() as int) =~= s);
    crate::model::lemma_row_start_mono(v.rows, r + 1, v.rows.len() as int);
    assert(row_start(v.rows, r + 1) == crate::model::row_end(v.rows, r));
}

/// A row break in a row of one-byte characters, with nothing selected: a new row of `n`
/// spaces goes in, `n` being, with automatic indentation, the number of spaces the row
/// starts with (or the cursor's column when the row holds nothing but spaces), and 0
/// without. At the start of the row the new row goes before it, and the cursor goes to the
/// row that was broken, after as many of its characters as the new row has spaces. Further
/// on, the row keeps what came before the cursor, the new row follows it with the rest of
/// the row after its spaces, and the cursor goes to the new row after its spaces. The other
/// rows stay.
pub proof fn law_row_break(v: TextView, n: nat)
    requires
        plain_glyphs(),
        v.selection.start == v.selection.end,
        v.rows.len() <= usize::MAX,
        v.cursor.row < v.rows.len(),
        plain(v.rows[v.cursor.row as int]),
        v.cursor.column <= v.rows[v.cursor.row as int].len(),
        !v.auto_indent ==> n == 0,
        v.auto_indent ==> forall|j: int| 0 <= j < n ==> #[trigger] v.rows[v.cursor.row as int][j] == ' ',
        v.auto_indent && (exists|j: int| 0 <= j < v.rows[v.cursor.row as int].len()
            && v.rows[v.cursor.row as int][j] != ' ') ==> n < v.rows[v.cursor.row as int].len()
            && v.rows[v.cursor.row as int][n as int] != ' ',
        v.auto_indent && (forall|j: int| 0 <= j < v.rows[v.cursor.row as int].len()
            ==> v.rows[v.cursor.row as int][j] == ' ') ==> n == v.cursor.column,
    ensures
        ({
            let rows = v.rows;
            let r = v.cursor.row as int;
            let col = v.cursor.column as int;
            let s = rows[r];
            let w = after_insert_row(v);
            &&& w.rows.len() == rows.len() + 1
            &&& forall|i: int| 0 <= i < r ==> #[trigger] w.rows[i] == rows[i]
            &&& forall|i: int| r + 1 < i < w.rows.len() ==> #[trigger] w.rows[i] == rows[i - 1]
            &&& col == 0 ==> {
                &&& w.rows[r].len() == n
                &&& forall|j: int| 0 <= j < n ==> #[trigger] w.rows[r][j] == ' '
                &&& w.rows[r + 1] == s
                &&& w.cursor == (TheCursor {
                    row: (r + 1) as usize,
                    column: if n < s.len() { n as usize } else { s.len() as usize },
                })
            }
            &&& col > 0 ==> {
                &&& w.rows[r] == s.subrange(0, col)
                &&& w.rows[r + 1].len() == n + s.len() - col
                &&& forall|j: int| 0 <= j < n ==> #[trigger] w.rows[r + 1][j] == ' '
                &&& forall|k: int| 0 <= k < s.len() - col ==> #[trigger] w.rows[r + 1][n + k] == s[col + k]
                &&& w.cursor == (TheCursor { row: (r + 1) as usize, column: n as usize })
            }
        }),
{
    let rows = v.rows;
    let r = v.cursor.row as int;
    let col = v.cursor.column as int;
    let s = rows[r];
    assert(after_delete_selection(v) == v);
    assert(glyph_count(s) == s.len());
    assert(glyph_offset(s, col) == col);
    // the indent is the number of leading spaces
    if v.auto_indent && exists|j: int| 0 <= j < s.len() && s[j] != ' ' {
        let i = first_non_space(s)->0;
        assert(0 <= i < s.len() && s[i] != ' ' && forall|j: int| 0 <= j < i ==> s[j] == ' ');
        if i < n {
            assert(s[i] == ' ');
        } else if n < i {
            assert(s[n as int] == ' ');
        }
        assert(i == n);
    }
    let w = after_insert_row(v);
    let sp = crate::textops::spaces(n);
    assert(plain(sp)) by {
        assert forall|k: int| 0 <= k < sp.len() implies (#[trigger] sp[k] as u32) < 0x80 && sp[k] != '\r' by {}
    }
    if col > 0 {
        let new_row = sp + s.skip(col);
        assert(plain(new_row)) by {
            assert(plain(s));
            assert forall|k: int| 0 <= k < new_row.len() implies (#[trigger] new_row[k] as u32) < 0x80 && new_row[k] != '\r' by {
                if k >= n {
                    assert(new_row[k] == s[col + k - n]);
                }
            }
        }
        assert(glyph_count(new_row) == new_row.len());
        if col >= s.len() {
            assert(s.skip(col) =~= Seq::<char>::empty());
            assert(new_row =~= sp);
            assert(s.subrange(0, col) =~= s);
        }
        assert forall|k: int| 0 <= k < s.len() - col implies #[trigger] w.rows[r + 1][n + k] == s[col + k] by {
            assert(new_row[n + k] == s[col + k]);
        }
    }
}

/// Moving the block of rows `start..=end` one row down puts the row after the block at the
/// block's first place and each row of the block one place further down; the rows before
/// and after stay, and the cursor goes one row down.
pub proof fn law_move_block_down(v: TextView, start: int, end: int)
    requires
        0 <= start <= end,
        end + 1 < v.rows.len(),
        v.cursor.row < usize::MAX,
    ensures
        ({
            let rows = v.rows;
            let (w, moved) = after_move_lines(v, start, end, 1);
            &&& moved
            &&& w.rows.len() == rows.len()
            &&& forall|i: int| 0 <= i < start ==> #[trigger] w.rows[i] == rows[i]
            &&& w.rows[start] == rows[end + 1]
            &&& forall|i: int| start < i <= end + 1 ==> #[trigger] w.rows[i] == rows[i - 1]
            &&& forall|i: int| end + 1 < i < rows.len() ==> #[trigger] w.rows[i] == rows[i]
            &&& w.cursor == (TheCursor { row: (v.cursor.row + 1) as usize, column: v.cursor.column })
            &&& v.selection.start == v.selection.end ==> w.selection == v.selection
            &&& v.selection.start != v.selection.end && v.selection.end + glyph_count(rows[end + 1])
                + 1 <= usize::MAX && v.selection.start + glyph_count(rows[end + 1]) + 1 <= usize::MAX
                ==> {
                &&& w.selection.start - v.selection.start == row_start(w.rows, start + 1) - row_start(rows, start)
                &&& w.selection.end - v.selection.end == row_start(w.rows, start + 1) - row_start(rows, start)
            }
        }),
{
    let w = after_move_lines(v, start, end, 1).0;
    assert forall|i: int| start < i <= end + 1 implies #[trigger] w.rows[i] == v.rows[i - 1] by {}
    if start < w.rows.len() {
        assert(w.rows.take(start) =~= v.rows.take(start));
        lemma_row_start_prefix(w.rows, v.rows, start);
    }
    assert(row_start(w.rows, start + 1) == row_start(w.rows, start) + row_len(w.rows, start));
}

/// Moving the block of rows `start..=end` one row up puts the row before the block at the
/// block's last place and each row of the block one place further up; the rows before and
/// after stay, and the cursor goes one row up.
pub proof fn law_move_block_up(v: TextView, start: int, end: int)
    requires
        1 <= start <= end < v.rows.len(),
        v.cursor.row >= 1,
    ensures
        ({
            let rows = v.rows;
            let (w, moved) = after_move_lines(v, start, end, -1);
            &&& moved
            &&& w.rows.len() == rows.len()
            &&& forall|i: int| 0 <= i < start - 1 ==> #[trigger] w.rows[i] == rows[i]
            &&& forall|i: int| start - 1 <= i < end ==> #[trigger] w.rows[i] == rows[i + 1]
            &&& w.rows[end] == rows[start - 1]
            &&& forall|i: int| end < i < rows.len() ==> #[trigger] w.rows[i] == rows[i]
            &&& w.cursor == (TheCursor { row: (v.cursor.row - 1) as usize, column: v.cursor.column })
            &&& v.selection.start == v.selection.end ==> w.selection == v.selection
            &&& v.selection.start != v.selection.end && v.selection.start >= glyph_count(rows[start - 1])
                + 1 && v.selection.end >= glyph_count(rows[start - 1]) + 1 ==> {
                &&& v.selection.start - w.selection.start == row_start(rows, start) - row_start(w.rows, start - 1)
                &&& v.selection.end - w.selection.end == row_start(rows, start) - row_start(w.rows, start - 1)
            }
        }),
{
    let w = after_move_lines(v, start, end, -1).0;
    assert forall|i: int| start - 1 <= i < end implies #[trigger] w.rows[i] == v.rows[i + 1] by {}
    assert(w.rows.take(start - 1) =~= v.rows.take(start - 1));
    lemma_row_start_prefix(w.rows, v.rows, start - 1);
    assert(row_start(v.rows, start) == row_start(v.rows, start - 1) + row_len(v.rows, start - 1));
}

/// Moving a block of rows down and then the same rows up again restores the text, the
/// cursor and the selection.
pub proof fn law_move_block_down_then_up(v: TextView, start: int, end: int)
    requires
        0 <= start <= end,
        end + 1 < v.rows.len(),
        v.cursor.row < usize::MAX,
        v.selection.start != v.selection.end ==> v.selection.end + glyph_count(v.rows[end + 1]) + 1
            <= usize::MAX && v.selection.start + glyph_count(v.rows[end + 1]) + 1 <= usize::MAX,
    ensures
        after_move_lines(after_move_lines(v, start, end, 1).0, start + 1, end + 1, -1) == (v, true),
{
    let v1 = after_move_lines(v, start, end, 1).0;
    law_move_block_down(v, start, end);
    let v2 = after_move_lines(v1, start + 1, end + 1, -1).0;
    law_move_block_up(v1, start + 1, end + 1);
    assert(v1.rows[start] == v.rows[end + 1]);
    assert(v2.rows =~= v.rows) by {
        assert forall|i: int| 0 <= i < v.rows.len() implies v2.rows[i] == v.rows[i] by {
            if start <= i <= end {
                assert(v2.rows[i] == v1.rows[i + 1]);
            }
        }
    }
    assert(v2.selection == v.selection);
    assert(v2 == v);
}

/// Typing an opening bracket with bracket completion and nothing selected, in a row of
/// one-byte characters, puts the bracket and its matching closing one at the cursor: `(`
/// with `)`, `{` with `}`, `[` with `]` and `<` with `>`; the cursor goes between them.
pub proof fn law_bracket_pairs(v: TextView, c: char)
    requires
        plain_glyphs(),
        v.auto_bracket_completion,
        v.selection.start == v.selection.end,
        v.cursor.row < v.rows.len(),
        plain(v.rows[v.cursor.row as int]),
        v.cursor.column <= v.rows[v.cursor.row as int].len(),
        v.cursor.column < usize::MAX,
        c == '(' || c == '{' || c == '[' || c == '<',
    ensures
        ({
            let r = v.cursor.row as int;
            let col = v.cursor.column as int;
            let s = v.rows[r];
            let w = after_insert_char(v, c);
            &&& c == '(' ==> w.rows == v.rows.update(r, s.take(col) + seq!['(', ')'] + s.skip(col))
            &&& c == '{' ==> w.rows == v.rows.update(r, s.take(col) + seq!['{', '}'] + s.skip(col))
            &&& c == '[' ==> w.rows == v.rows.update(r, s.take(col) + seq!['[', ']'] + s.skip(col))
            &&& c == '<' ==> w.rows == v.rows.update(r, s.take(col) + seq!['<', '>'] + s.skip(col))
            &&& w.cursor == (TheCursor { row: v.cursor.row, column: (col + 1) as usize })
        }),
{
    let s = v.rows[v.cursor.row as int];
    assert(glyph_offset(s, v.cursor.column as int) == v.cursor.column);
}

/// Typing an opening bracket with bracket completion while a stretch within one row of
/// one-byte characters is selected puts the bracket before the stretch and its matching
/// closing one after it: `(` with `)`, `{` with `}`, `[` with `]` and `<` with `>`; the
/// selection moves one place on with the stretch, and a cursor in that row one place on.
pub proof fn law_bracket_pairs_around(v: TextView, c: char, r: int)
    requires
        plain_glyphs(),
        v.auto_bracket_completion,
        0 <= r < v.rows.len(),
        plain(v.rows[r]),
        row_start(v.rows, r) <= v.selection.start < v.selection.end <= row_start(v.rows, r) + v.rows[r].len(),
        v.selection.end < usize::MAX,
        v.cursor.column < usize::MAX,
        c == '(' || c == '{' || c == '[' || c == '<',
    ensures
        ({
            let s = v.rows[r];
            let a = v.selection.start - row_start(v.rows, r);
            let b = v.selection.end - row_start(v.rows, r);
            let w = after_insert_char(v, c);
            let inner = s.subrange(a, b);
            &&& c == '(' ==> w.rows == v.rows.update(r, s.take(a) + seq!['('] + inner + seq![')'] + s.skip(b))
            &&& c == '{' ==> w.rows == v.rows.update(r, s.take(a) + seq!['{'] + inner + seq!['}'] + s.skip(b))
            &&& c == '[' ==> w.rows == v.rows.update(r, s.take(a) + seq!['['] + inner + seq![']'] + s.skip(b))
            &&& c == '<' ==> w.rows == v.rows.update(r, s.take(a) + seq!['<'] + inner + seq!['>'] + s.skip(b))
            &&& w.selection.start == v.selection.start + 1
            &&& w.selection.end == v.selection.end + 1
            &&& w.cursor == if v.cursor.row == r {
                TheCursor { row: v.cursor.row, column: (v.cursor.column + 1) as usize }
            } else {
                v.cursor
            }
        }),
{
    let rows = v.rows;
    let s = rows[r];
    let rs = row_start(rows, r) as int;
    let a = v.selection.start - rs;
    let b = v.selection.end - rs;
    assert(glyph_count(s) == s.len());
    assert(crate::model::is_row_of_index(rows, v.selection.start as int, r));
    crate::textops::lemma_row_of_index(rows, v.selection.start as int, r);
    assert(crate::model::is_row_of_index(rows, v.selection.end as int, r));
    crate::textops::lemma_row_of_index(rows, v.selection.end as int, r);
    assert(glyph_offset(s, a) == a);
    let row_a = s.take(a) + seq![c] + s.skip(a);
    assert(plain(row_a)) by {
        assert forall|k: int| 0 <= k < row_a.len() implies (#[trigger] row_a[k] as u32) < 0x80 && row_a[k] != '\r' by {
            if k < a {
                assert(row_a[k] == s[k]);
            } else if k > a {
                assert(row_a[k] == s[k - 1]);
            }
        }
    }
    assert(glyph_offset(row_a, b + 1) == b + 1);
    let m = crate::textops::closing_bracket(c);
    assert(row_a.take(b + 1) + seq![m] + row_a.skip(b + 1) =~= s.take(a) + seq![c] + s.subrange(a, b) + seq![m] + s.skip(b));
}

/// The rows that a move takes: the cursor's row when nothing is selected, else the rows
/// from the one holding the selection's start to the one holding its end.
pub proof fn law_rows_to_move(v: TextView)
    requires
        v.rows.len() > 0,
    ensures
        v.selection.start == v.selection.end ==> lines_to_move(v) == (v.cursor.row as int, v.cursor.row as int),
        v.selection.start != v.selection.end ==> is_row_of_index(v.rows, v.selection.start as int, lines_to_move(v).0)
            && is_row_of_index(v.rows, v.selection.end as int, lines_to_move(v).1),
{
    crate::flattext::lemma_find_row(v.rows, v.selection.start as int, 0);
    crate::flattext::lemma_find_row(v.rows, v.selection.end as int, 0);
}

/// Typing a one-byte character other than an opening bracket under bracket completion, with
/// nothing selected, in a row of one-byte characters, puts the character at the cursor and
/// moves the cursor past it; the other rows stay.
pub proof fn law_typing_inserts(v: TextView, c: char)
    requires
        plain_glyphs(),
        v.selection.start == v.selection.end,
        v.cursor.row < v.rows.len(),
        plain(v.rows[v.cursor.row as int]),
        v.cursor.column <= v.rows[v.cursor.row as int].len(),
        v.cursor.column < usize::MAX,
        (c as u32) < 0x80 && c != '\r',
        !(v.auto_bracket_completion && (c == '(' || c == '{' || c == '[' || c == '<')),
    ensures
        ({
            let r = v.cursor.row as int;
            let col = v.cursor.column as int;
            let s = v.rows[r];
            let w = after_insert_char(v, c);
            &&& w.rows == v.rows.update(r, s.take(col) + seq![c] + s.skip(col))
            &&& w.cursor == (TheCursor { row: v.cursor.row, column: (col + 1) as usize })
            &&& w.selection == v.selection
        }),
{
    let r = v.cursor.row as int;
    let col = v.cursor.column as int;
    let s = v.rows[r];
    assert(after_delete_selection(v) == v);
    assert(glyph_offset(s, col) == col);
    let t = s.take(col) + seq![c] + s.skip(col);
    assert(plain(t)) by {
        assert forall|k: int| 0 <= k < t.len() implies (#[trigger] t[k] as u32) < 0x80 && t[k] != '\r' by {
            if k < col {
                assert(t[k] == s[k]);
            } else if k > col {
                assert(t[k] == s[k - 1]);
            }
        }
    }
    assert(glyph_count(t) == t.len());
}

} // verus!
