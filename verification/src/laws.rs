//! Properties that relate several operations on a text being edited.
use vstd::prelude::*;

use crate::model::{
    byte_len, chars_before_byte, glyph_count, glyph_offset, grapheme_clusters, is_row_of_index,
    lemma_chars_before_byte, lemma_glyphs, row_len, text_len, well_segmented, join_rows, lemma_row_start_mono, row_end, row_start, split_lines,
    text_fits,
};
use crate::flattext::{
    after_row, lemma_before_len, lemma_delete_plain, lemma_insert_plain,
    lemma_cut_callable, lemma_join_plain, lemma_plain_index, lemma_rejoin, lemma_row_start_ge,
    lemma_split_at_row, lemma_split_lines_bound, lemma_text_between_plain, lemma_text_len_plain,
    plain, plain_glyphs, plain_rows,
};
use crate::textedit::{selected_range_of_row, TheCursor, TheSelection};
use crate::textops::{
    after_delete_selection, after_move_lines, after_quick_select, cursor_index, cursor_left,
    cursor_right, delete_glyphs, first_row_range, lemma_row_of_index, merged_rows,
    quick_selectable, row_of_index, rows_without_selection, text_between, after_insert_text,
    selection_deletable, text_between_readable, text_insertable_here, lines_to_move, lines_movable,
    TextView,
};

verus! {

proof fn lemma_join_push_empty(rows: Seq<Seq<char>>)
    requires
        rows.len() >= 1,
    ensures
        join_rows(rows.push(Seq::empty())) == join_rows(rows) + seq!['\n'],
{
    let p = rows.push(Seq::<char>::empty());
    assert(p.drop_last() =~= rows);
    assert(join_rows(p) == join_rows(rows) + seq!['\n'] + Seq::<char>::empty());
    assert(join_rows(rows) + seq!['\n'] + Seq::<char>::empty() =~= join_rows(rows) + seq!['\n']);
}

proof fn lemma_join_extend_last(rows: Seq<Seq<char>>, c: char)
    requires
        rows.len() >= 1,
    ensures
        join_rows(rows.update(rows.len() - 1, rows.last().push(c))) == join_rows(rows).push(c),
{
    let u = rows.update(rows.len() - 1, rows.last().push(c));
    if rows.len() == 1 {
        assert(join_rows(u) == u[0]);
    } else {
        assert(u.drop_last() =~= rows.drop_last());
        assert(join_rows(u) == join_rows(rows.drop_last()) + seq!['\n'] + rows.last().push(c));
        assert(join_rows(rows) == join_rows(rows.drop_last()) + seq!['\n'] + rows.last());
        assert(join_rows(rows.drop_last()) + seq!['\n'] + rows.last().push(c) =~= (join_rows(rows.drop_last()) + seq!['\n'] + rows.last()).push(c));
    }
}

/// Setting a text and reading it back gives the same text: joining the lines of a text by
/// linebreaks gives the text.
pub proof fn law_text_round_trip(s: Seq<char>)
    ensures
        join_rows(split_lines(s)) == s,
    decreases s.len(),
{
    if s.len() == 0 {
        assert(join_rows(split_lines(s)) == Seq::<char>::empty());
        assert(s =~= Seq::<char>::empty());
    } else {
        let d = s.drop_last();
        law_text_round_trip(d);
        crate::model::lemma_split_lines_len(d);
        let prev = split_lines(d);
        if s.last() == '\n' {
            lemma_join_push_empty(prev);
        } else {
            lemma_join_extend_last(prev, s.last());
        }
        assert(d.push(s.last()) =~= s);
    }
}

/// A cursor inside the text sits at a cursor index whose row and column are the cursor's
/// own: reading back the row and column of the cursor's index gives the cursor.
pub proof fn law_cursor_index_round_trip(rows: Seq<Seq<char>>, c: TheCursor)
    requires
        c.row < rows.len(),
        c.column <= glyph_count(rows[c.row as int]),
    ensures
        is_row_of_index(rows, row_start(rows, c.row as int) + c.column, c.row as int),
{
    let r = c.row as int;
    if r < rows.len() - 1 {
        assert(row_end(rows, r) == row_start(rows, r) + glyph_count(rows[r]) + 1);
    }
}

/// Moving the cursor left and then right brings it back, unless it was at the start of the
/// text.
pub proof fn law_left_then_right(rows: Seq<Seq<char>>, c: TheCursor)
    requires
        c.row < rows.len(),
        c.column <= glyph_count(rows[c.row as int]),
        text_fits(rows),
        !(c.row == 0 && c.column == 0),
    ensures
        cursor_right(rows, cursor_left(rows, c)) == c,
{
    if c.column == 0 {
        lemma_row_start_mono(rows, c.row as int, rows.len() as int);
        assert(row_end(rows, c.row - 1) <= row_start(rows, c.row as int));
    }
}

/// Moving the cursor right and then left brings it back, unless it was at the end of the
/// text.
pub proof fn law_right_then_left(rows: Seq<Seq<char>>, c: TheCursor)
    requires
        c.row < rows.len(),
        c.column <= glyph_count(rows[c.row as int]),
        text_fits(rows),
        rows.len() <= usize::MAX,
        !(c.row == rows.len() - 1 && c.column == glyph_count(rows[c.row as int])),
    ensures
        cursor_left(rows, cursor_right(rows, c)) == c,
{
    let r = c.row as int;
    lemma_row_start_mono(rows, r + 1, rows.len() as int);
    assert(row_start(rows, r + 1) == row_start(rows, r) + crate::model::row_len(rows, r));
    assert(glyph_count(rows[r]) <= usize::MAX);
    let d = cursor_right(rows, c);
    if c.column == glyph_count(rows[r]) {
        assert(d.row == c.row + 1 && d.column == 0);
        assert(cursor_left(rows, d).row == c.row);
        assert(cursor_left(rows, d).column == c.column);
    } else {
        assert(d.row == c.row && d.column == c.column + 1);
    }
}

/// Moving a row down and then up again restores the text, the cursor and the selection,
/// when nothing is selected; each move takes the cursor's row, and can be asked for when the
/// number of rows fits a signed machine word.
pub proof fn law_move_down_then_up(v: TextView)
    requires
        v.selection.start == v.selection.end,
        v.cursor.row < v.rows.len(),
        v.rows.len() <= usize::MAX,
        after_move_lines(v, v.cursor.row as int, v.cursor.row as int, 1).1,
    ensures
        after_move_lines(
            after_move_lines(v, v.cursor.row as int, v.cursor.row as int, 1).0,
            v.cursor.row + 1,
            v.cursor.row + 1,
            -1,
        ) == (v, true),
        lines_to_move(v) == (v.cursor.row as int, v.cursor.row as int),
        lines_to_move(after_move_lines(v, v.cursor.row as int, v.cursor.row as int, 1).0) == (
            v.cursor.row + 1,
            v.cursor.row + 1,
        ),
        v.rows.len() <= isize::MAX ==> lines_movable(v, v.cursor.row as int, v.cursor.row as int, 1),
        v.rows.len() <= isize::MAX ==> lines_movable(
            after_move_lines(v, v.cursor.row as int, v.cursor.row as int, 1).0,
            v.cursor.row + 1,
            v.cursor.row + 1,
            -1,
        ),
{
    let r = v.cursor.row as int;
    let v1 = after_move_lines(v, r, r, 1).0;
    let v2 = after_move_lines(v1, r + 1, r + 1, -1).0;
    assert(v1.rows.len() == v.rows.len());
    assert(v1.cursor.row == r + 1);
    assert(v2.rows =~= v.rows);
    assert(v2.cursor == v.cursor);
    assert(v2.selection == v.selection);
    assert(v2 == v);
}

/// Moving a row up and then down again restores the text, the cursor and the selection,
/// when nothing is selected; each move takes the cursor's row, and can be asked for when the
/// number of rows fits a signed machine word.
pub proof fn law_move_up_then_down(v: TextView)
    requires
        v.selection.start == v.selection.end,
        0 < v.cursor.row < v.rows.len(),
    ensures
        after_move_lines(v, v.cursor.row as int, v.cursor.row as int, -1).1,
        after_move_lines(
            after_move_lines(v, v.cursor.row as int, v.cursor.row as int, -1).0,
            v.cursor.row - 1,
            v.cursor.row - 1,
            1,
        ) == (v, true),
        lines_to_move(v) == (v.cursor.row as int, v.cursor.row as int),
        lines_to_move(after_move_lines(v, v.cursor.row as int, v.cursor.row as int, -1).0) == (
            v.cursor.row - 1,
            v.cursor.row - 1,
        ),
        v.rows.len() <= isize::MAX ==> lines_movable(
            v,
            v.cursor.row as int,
            v.cursor.row as int,
            -1,
        ),
        v.rows.len() <= isize::MAX ==> lines_movable(
            after_move_lines(v, v.cursor.row as int, v.cursor.row as int, -1).0,
            v.cursor.row - 1,
            v.cursor.row - 1,
            1,
        ),
{
    let r = v.cursor.row as int;
    let v1 = after_move_lines(v, r, r, -1).0;
    let v2 = after_move_lines(v1, r - 1, r - 1, 1).0;
    assert(v1.rows.len() == v.rows.len());
    assert(v1.cursor.row == r - 1);
    assert(v2.rows =~= v.rows);
    assert(v2.cursor == v.cursor);
    assert(v2.selection == v.selection);
    assert(v2 == v);
}

/// The row and column read back from a cursor's index are the cursor's own: the row that
/// holds the index is the cursor's row, and the index lies as far into it as the column.
pub proof fn law_row_col_of_cursor_index(rows: Seq<Seq<char>>, c: TheCursor)
    requires
        c.row < rows.len(),
        c.column <= glyph_count(rows[c.row as int]),
    ensures
        row_of_index(rows, row_start(rows, c.row as int) + c.column) == c.row,
        row_start(rows, c.row as int) + c.column - row_start(
            rows,
            row_of_index(rows, row_start(rows, c.row as int) + c.column),
        ) == c.column,
{
    law_cursor_index_round_trip(rows, c);
    lemma_row_of_index(rows, row_start(rows, c.row as int) + c.column, c.row as int);
}

/// Quick select a second time right after the first leaves the state as the first left it,
/// for a cursor inside its row. (Where the cursor sits on an empty last row, the first call
/// moves it to the end of the row before, whose glyphs must then be one byte each, as in
/// plain ASCII text; the column counts glyphs while the row's end is found by bytes.)
pub proof fn law_quick_select_twice(v: TextView)
    requires
        quick_selectable(v),
        well_segmented(v.rows[v.cursor.row as int]),
        v.cursor.column <= glyph_count(v.rows[v.cursor.row as int]),
        v.cursor.row == v.rows.len() - 1 && v.rows[v.cursor.row as int].len() == 0 ==> byte_len(
            v.rows[v.cursor.row - 1],
        ) <= glyph_count(v.rows[v.cursor.row - 1]),
    ensures
        after_quick_select(after_quick_select(v)) == after_quick_select(v),
{
    let w = after_quick_select(v);
    let rows = v.rows;
    let r = v.cursor.row as int;
    let s = rows[r];
    if v.cursor.column as int >= byte_len(s) && r == rows.len() - 1 && s.len() == 0 {
        lemma_glyphs(s);
        assert(r >= 1);
        assert(w.cursor.row == r - 1);
        assert(w.cursor.column == glyph_count(rows[r - 1]));
        assert(row_end(rows, r - 1) == row_start(rows, r));
        assert(after_quick_select(w) == w);
    } else {
        assert(after_quick_select(w) == w);
    }
}

/// In a row of one-byte characters, a prefix of `k` characters takes `k` bytes.
pub proof fn lemma_ascii_byte_len(s: Seq<char>, k: int)
    requires
        0 <= k <= s.len(),
        forall|i: int| 0 <= i < s.len() ==> (#[trigger] s[i] as u32) < 0x80,
    ensures
        byte_len(s.take(k)) == k,
    decreases k,
{
    if k > 0 {
        lemma_ascii_byte_len(s, k - 1);
        assert(s.take(k).drop_last() =~= s.take(k - 1));
        assert(s.take(k).last() == s[k - 1]);
    }
}

/// Rows joined by linebreaks: the first row, a linebreak, and the others joined.
proof fn lemma_join_first(rows: Seq<Seq<char>>)
    requires
        rows.len() >= 2,
    ensures
        join_rows(rows) == rows[0] + seq!['\n'] + join_rows(rows.skip(1)),
    decreases rows.len(),
{
    if rows.len() == 2 {
        assert(rows.drop_last() =~= seq![rows[0]]);
        assert(rows.skip(1) =~= seq![rows[1]]);
        assert(join_rows(rows.drop_last()) == rows[0]);
        assert(join_rows(rows.skip(1)) == rows[1]);
    } else {
        let d = rows.drop_last();
        lemma_join_first(d);
        assert(rows.skip(1).drop_last() =~= d.skip(1));
        assert(rows.skip(1).last() == rows.last());
        assert(join_rows(rows.skip(1)) == join_rows(d.skip(1)) + seq!['\n'] + rows.last());
        assert(join_rows(rows) == join_rows(d) + seq!['\n'] + rows.last());
        assert(rows[0] + seq!['\n'] + join_rows(d.skip(1)) + seq!['\n'] + rows.last()
            =~= rows[0] + seq!['\n'] + (join_rows(d.skip(1)) + seq!['\n'] + rows.last()));
    }
}

/// Deleting all glyphs of a row leaves it empty.
proof fn lemma_delete_all_glyphs(s: Seq<char>)
    requires
        well_segmented(s),
    ensures
        delete_glyphs(s, 0, glyph_count(s) as int) == Seq::<char>::empty(),
{
    lemma_glyphs(s);
    if glyph_count(s) > 0 {
        assert(grapheme_clusters(s).take(0) =~= Seq::<Seq<char>>::empty());
        assert(glyph_offset(s, 0) == 0);
    }
    assert(delete_glyphs(s, 0, glyph_count(s) as int) =~= Seq::<char>::empty());
}

/// An empty text is one empty row, with the cursor inside it at its start.
proof fn lemma_empty_text(v: TextView)
    requires
        forall|s: Seq<char>| #[trigger] well_segmented(s),
        v.rows.len() > 0,
        text_len(v.rows) == 0,
        v.selection == (TheSelection { start: 0, end: 0 }),
        v.cursor.row < v.rows.len(),
        v.cursor.column <= glyph_count(v.rows[v.cursor.row as int]),
    ensures
        text_between(v.rows, 0, 0) == join_rows(v.rows),
        after_delete_selection(v) == (TextView {
            rows: seq![Seq::<char>::empty()],
            cursor: TheCursor { row: 0, column: 0 },
            selection: TheSelection { start: 0, end: 0 },
            ..v
        }),
{
    let rows = v.rows;
    let n = rows.len() as int;
    if n > 1 {
        lemma_row_start_mono(rows, 1, n);
        assert(row_start(rows, 1) == row_len(rows, 0));
        assert(false);
    }
    assert(row_start(rows, 1) == glyph_count(rows[0]));
    lemma_glyphs(rows[0]);
    assert(rows[0] =~= Seq::<char>::empty());
    assert(rows =~= seq![Seq::<char>::empty()]);
    assert(is_row_of_index(rows, 0, 0));
    lemma_row_of_index(rows, 0, 0);
    lemma_chars_before_byte(rows[0], 0);
    assert(rows[0].take(0) =~= Seq::<char>::empty());
    assert(text_between(rows, 0, 0) =~= Seq::<char>::empty());
    assert(v.cursor.row == 0 && v.cursor.column == 0);
}

/// Cutting the whole text right after selecting all of it gives the text, and leaves one
/// empty row with the cursor at its start and nothing selected; the cut can be asked for
/// when the text's length stays below the largest machine word. This needs the glyphs of
/// the last row to be single one-byte characters, as in plain ASCII text, since the end of
/// the selection counts glyphs while reading it counts bytes; and it needs what the
/// segmenter gives of every string: pieces that are not empty and join up to the string.
pub proof fn law_cut_all(v: TextView)
    requires
        forall|s: Seq<char>| #[trigger] well_segmented(s),
        v.rows.len() > 0,
        forall|i: int| 0 <= i < v.rows.last().len() ==> (#[trigger] v.rows.last()[i] as u32) < 0x80,
        glyph_count(v.rows.last()) == v.rows.last().len(),
        text_fits(v.rows),
        v.selection == (TheSelection { start: 0, end: text_len(v.rows) as usize }),
        v.cursor.row < v.rows.len(),
        v.cursor.column <= glyph_count(v.rows[v.cursor.row as int]),
    ensures
        text_between_readable(v.rows, 0, text_len(v.rows) as int),
        text_len(v.rows) < usize::MAX ==> selection_deletable(v),
        text_between(v.rows, 0, text_len(v.rows) as int) == join_rows(v.rows),
        after_delete_selection(v) == (TextView {
            rows: seq![Seq::<char>::empty()],
            cursor: TheCursor { row: 0, column: 0 },
            selection: TheSelection { start: 0, end: 0 },
            ..v
        }),
{
    let rows = v.rows;
    let n = rows.len() as int;
    let last = n - 1;
    let total = text_len(rows) as int;
    let sel = v.selection;
    let cr = v.cursor.row as int;
    lemma_row_start_mono(rows, cr + 1, n);
    assert(row_start(rows, cr + 1) == row_end(rows, cr));
    assert(cursor_index(v) <= total);
    if total == 0 {
        lemma_empty_text(v);
        assert(is_row_of_index(rows, 0, 0));
        lemma_row_of_index(rows, 0, 0);
        lemma_chars_before_byte(rows[0], 0);
        assert(byte_len(rows[0].take(0)) == 0);
        return;
    }
    // the rows of the ends of the selection
    if n > 1 {
        assert(row_end(rows, 0) == glyph_count(rows[0]) + 1);
    }
    assert(is_row_of_index(rows, 0, 0));
    lemma_row_of_index(rows, 0, 0);
    assert(row_start(rows, n) == row_start(rows, last) + row_len(rows, last));
    assert(is_row_of_index(rows, total, last));
    lemma_row_of_index(rows, total, last);
    let ls = rows[last];
    assert(total - row_start(rows, last) == ls.len());
    // reading the text
    lemma_ascii_byte_len(ls, ls.len() as int);
    assert(ls.take(ls.len() as int) =~= ls);
    lemma_chars_before_byte(ls, ls.len() as int);
    assert(chars_before_byte(ls, ls.len() as int) == ls.len());
    lemma_chars_before_byte(rows[0], 0);
    assert(rows[0].take(0) =~= Seq::<char>::empty());
    assert(chars_before_byte(rows[0], 0) == 0);
    if n == 1 {
        assert(rows[0].subrange(0, ls.len() as int) =~= rows[0]);
        assert(text_between(rows, 0, total) == join_rows(rows));
    } else {
        lemma_join_first(rows);
        assert(rows.subrange(1, last).push(ls.take(ls.len() as int)) =~= rows.skip(1));
        assert(rows[0].skip(0) =~= rows[0]);
        assert(text_between(rows, 0, total) == join_rows(rows));
    }
    // deleting the text
    lemma_glyphs(rows[0]);
    lemma_glyphs(ls);
    lemma_delete_all_glyphs(ls);
    lemma_delete_all_glyphs(rows[0]);
    let range = first_row_range(rows, sel);
    let rows1 = merged_rows(rows, sel);
    let rows2 = rows_without_selection(rows, sel);
    if n == 1 {
        assert(rows1 == rows);
        assert(range.0 == 0 && range.1 == glyph_count(rows[0]));
        assert(rows2 =~= seq![Seq::<char>::empty()]);
    } else {
        let g0 = glyph_count(rows[0]) as int;
        let re = row_end(rows, 0) as int;
        assert(re == g0 + 1);
        assert(delete_glyphs(ls, 0, total - row_start(rows, last)) == Seq::<char>::empty());
        if total == re && total - 1 == 0 {
            let nl = seq!['\n'];
            assert(rows[0].push('\n') =~= nl);
            lemma_glyphs(nl);
            lemma_delete_all_glyphs(nl);
            assert(rows1 =~= seq![nl]);
            assert(range == (0int, 1int));
            assert(rows2 =~= seq![Seq::<char>::empty()]);
        } else {
            assert(rows1 =~= seq![rows[0] + Seq::<char>::empty()]);
            assert(rows[0] + Seq::<char>::empty() =~= rows[0]);
            if g0 == 0 {
                assert(range == (0int, 1int));
                assert(delete_glyphs(rows[0], 0, 1) =~= Seq::<char>::empty());
            } else {
                lemma_row_start_mono(rows, 1, n);
                assert(row_start(rows, 1) == re);
                assert(total >= g0 + 1);
                assert(selected_range_of_row(rows, sel, 0) == Some((0usize, g0 as usize)));
                assert(range == (0int, g0));
            }
            assert(rows2 =~= seq![Seq::<char>::empty()]);
        }
    }
    assert(range.0 == 0);
    // the cursor
    let w = after_delete_selection(v);
    assert(w.rows == seq![Seq::<char>::empty()]);
    if cursor_index(v) == total {
        assert(is_row_of_index(rows2, 0, 0));
        lemma_row_of_index(rows2, 0, 0);
    }
    assert(w.cursor == (TheCursor { row: 0, column: 0 }));
    lemma_glyphs(Seq::<char>::empty());
    assert(row_start(w.rows, 1) == row_start(w.rows, 0) + row_len(w.rows, 0));
    assert(text_len(w.rows) == 0);
}

/// Cutting the selected text and pasting it back restores the text: for a text whose
/// characters are one-byte glyphs, the cut text is the selected stretch of the text, the
/// paste goes in where the selection started and ends where it ended, the text afterwards
/// is the text before, and the cursor stands at the end of the pasted text; what the cut
/// and the paste ask of the state holds.  The cursor lies within the selection or at one of
/// its ends, and the cut text does not begin with a linebreak unless that linebreak is all
/// of it.
pub proof fn law_cut_then_paste(v: TextView)
    requires
        plain_glyphs(),
        plain_rows(v.rows),
        v.rows.len() > 0,
        text_len(v.rows) < usize::MAX,
        v.selection.start < v.selection.end <= text_len(v.rows),
        v.cursor.row <= v.rows.len(),
        v.selection.start <= cursor_index(v) <= v.selection.end,
        v.selection.end > v.selection.start + 1 ==> join_rows(v.rows)[v.selection.start as int]
            != '\n',
    ensures
        ({
            let s = v.selection.start as int;
            let e = v.selection.end as int;
            let t = text_between(v.rows, s, e);
            let u = after_delete_selection(v);
            let w = after_insert_text(u, t);
            &&& text_between_readable(v.rows, s, e)
            &&& selection_deletable(v)
            &&& selection_deletable(u)
            &&& text_insertable_here(u, t)
            &&& t == join_rows(v.rows).subrange(s, e)
            &&& cursor_index(after_delete_selection(u)) == s
            &&& cursor_index(after_delete_selection(u)) + glyph_count(t) == e
            &&& join_rows(w.rows) == join_rows(v.rows)
            &&& cursor_index(w) == e
        }),
{
    let rows = v.rows;
    let s = v.selection.start as int;
    let e = v.selection.end as int;
    let y = join_rows(rows);
    lemma_text_len_plain(rows);
    lemma_text_between_plain(rows, s, e);
    let t = text_between(rows, s, e);
    // the premise on a selection that starts on a linebreak
    lemma_plain_index(rows, s);
    let sr = row_of_index(rows, s);
    assert(s == row_start(rows, sr) + rows[sr].len() && sr < rows.len() - 1 ==> e == s + 1) by {
        lemma_split_at_row(rows, sr);
        lemma_before_len(rows, sr);
        if s == row_start(rows, sr) + rows[sr].len() && sr < rows.len() - 1 {
            assert(y[s] == after_row(rows, sr)[0]);
        }
    }
    lemma_delete_plain(v);
    let u = after_delete_selection(v);
    let er = row_of_index(rows, e);
    let a = s - row_start(rows, sr);
    let b = e - row_start(rows, er);
    assert(after_delete_selection(u) == u);
    // the cut text is plain, and the paste fits
    assert(plain(t)) by {
        lemma_join_plain(rows);
        assert forall|i: int| 0 <= i < t.len() implies (#[trigger] t[i] as u32) < 0x80 && t[i] != '\r' by {
            assert(t[i] == y[s + i]);
        }
    }
    lemma_split_lines_bound(t);
    lemma_row_start_ge(rows, sr);
    lemma_rejoin(rows, sr, er, a, b, t);
    lemma_insert_plain(u, t);
    lemma_cut_callable(v);
}

/// A quick select can be asked for on a text of one-byte glyphs without linebreaks in its
/// rows whose cursor lies inside it, but a lone empty row.
proof fn lemma_plain_quick_selectable(v: TextView)
    requires
        plain_glyphs(),
        plain_rows(v.rows),
        text_fits(v.rows),
        v.cursor.row < v.rows.len(),
        v.cursor.column <= v.rows[v.cursor.row as int].len(),
        !(v.rows.len() == 1 && v.rows[0].len() == 0),
    ensures
        quick_selectable(v),
        v.cursor.row == v.rows.len() - 1 && v.rows[v.cursor.row as int].len() == 0 ==> byte_len(
            v.rows[v.cursor.row - 1],
        ) <= glyph_count(v.rows[v.cursor.row - 1]),
{
    let rows = v.rows;
    let r = v.cursor.row as int;
    let s = rows[r];
    let n = rows.len() as int;
    assert(plain(s));
    lemma_ascii_byte_len(s, s.len() as int);
    assert(s.take(s.len() as int) =~= s);
    let rs = row_start(rows, r) as int;
    lemma_row_start_mono(rows, r + 1, n);
    assert(row_start(rows, r + 1) == rs + row_len(rows, r));
    assert(rs + s.len() <= text_len(rows));
    if r == n - 1 && s.len() == 0 {
        assert(r >= 1);
        lemma_row_start_ge(rows, r);
        assert(plain(rows[r - 1]));
        lemma_ascii_byte_len(rows[r - 1], rows[r - 1].len() as int);
        assert(rows[r - 1].take(rows[r - 1].len() as int) =~= rows[r - 1]);
    }
    if !(v.cursor.column as int >= s.len() && r == n - 1 && s.len() == 0) && !(
    v.cursor.column as int >= s.len() && r != n - 1) {
        let col = v.cursor.column as int;
        let c = if col < s.len() - 1 { col } else { s.len() - 1 };
        lemma_ascii_byte_len(s, c);
        lemma_chars_before_byte(s, c);
        lemma_ascii_byte_len(s, c + 1);
        lemma_chars_before_byte(s, c + 1);
    }
}

/// Quick select a second time right after the first leaves the state as the first left it,
/// and neither call changes the rows, on every text of one-byte glyphs without linebreaks
/// in its rows whose cursor lies inside it, but a lone empty row; both calls can be asked
/// for.
pub proof fn law_quick_select_twice_plain(v: TextView)
    requires
        plain_glyphs(),
        plain_rows(v.rows),
        well_segmented(v.rows[v.cursor.row as int]),
        text_fits(v.rows),
        v.cursor.row < v.rows.len(),
        v.cursor.column <= v.rows[v.cursor.row as int].len(),
        !(v.rows.len() == 1 && v.rows[0].len() == 0),
    ensures
        quick_selectable(v),
        quick_selectable(after_quick_select(v)),
        after_quick_select(v).rows == v.rows,
        after_quick_select(after_quick_select(v)) == after_quick_select(v),
{
    lemma_plain_quick_selectable(v);
    law_quick_select_twice(v);
    let w = after_quick_select(v);
    let r = v.cursor.row as int;
    if v.cursor.column >= byte_len(v.rows[r]) && r == v.rows.len() - 1 && v.rows[r].len() == 0 {
        assert(plain(v.rows[r - 1]));
        assert(w.cursor.row == r - 1);
    }
    lemma_plain_quick_selectable(w);
}

} // verus!
