//! The rows of a text seen as one sequence of characters joined by linebreaks: where each
//! row stands in it, for text whose glyphs are single characters.
use vstd::prelude::*;

use crate::model::{
    chars_before_byte, glyph_count, glyph_offset, is_row_of_index, join_rows,
    lemma_chars_before_byte, lemma_row_start_mono, lemma_split_lines_len, row_end, row_len, row_start, split_lines,
    text_len,
};
use crate::textedit::{TheCursor, TheSelection};
use crate::textops::{
    after_delete_selection, after_insert_text, cursor_index, delete_glyphs, first_row_range,
    lemma_row_of_index, merged_rows, row_of_index, rows_without_selection, text_between,
    text_between_readable, TextView,
};

verus! {

/// One-byte characters without a carriage return, which the segmenter cuts one glyph per
/// character.
pub open spec fn plain(s: Seq<char>) -> bool {
    forall|i: int| 0 <= i < s.len() ==> (#[trigger] s[i] as u32) < 0x80 && s[i] != '\r'
}

/// A plain row: plain, and without linebreaks.
pub open spec fn plain_row(s: Seq<char>) -> bool {
    plain(s) && forall|i: int| 0 <= i < s.len() ==> #[trigger] s[i] != '\n'
}

/// All rows are plain rows.
pub open spec fn plain_rows(rows: Seq<Seq<char>>) -> bool {
    forall|r: int| 0 <= r < rows.len() ==> plain_row(#[trigger] rows[r])
}

/// The segmenter cuts plain text one glyph per character.
pub open spec fn plain_glyphs() -> bool {
    forall|s: Seq<char>|
        #[trigger] plain(s) ==> glyph_count(s) == s.len() && forall|k: int|
            0 <= k <= s.len() ==> #[trigger] glyph_offset(s, k) == k
}

/// The joined text before row `r`, with the linebreak that ends the row before.
pub open spec fn before_row(rows: Seq<Seq<char>>, r: int) -> Seq<char> {
    if r == 0 {
        Seq::empty()
    } else {
        join_rows(rows.take(r)) + seq!['\n']
    }
}

/// The joined text after row `r`, with the linebreak that ends it.
pub open spec fn after_row(rows: Seq<Seq<char>>, r: int) -> Seq<char> {
    if r == rows.len() - 1 {
        Seq::empty()
    } else {
        seq!['\n'] + join_rows(rows.skip(r + 1))
    }
}

/// Joining two runs of rows puts a linebreak between their texts.
pub proof fn lemma_join_append(a: Seq<Seq<char>>, b: Seq<Seq<char>>)
    requires
        a.len() >= 1,
        b.len() >= 1,
    ensures
        join_rows(a + b) == join_rows(a) + seq!['\n'] + join_rows(b),
    decreases b.len(),
{
    if b.len() == 1 {
        assert((a + b).drop_last() =~= a);
        assert((a + b).last() == b[0]);
    } else {
        lemma_join_append(a, b.drop_last());
        assert((a + b).drop_last() =~= a + b.drop_last());
        assert((a + b).last() == b.last());
        assert(join_rows(a + b) == join_rows(a + b.drop_last()) + seq!['\n'] + b.last());
        assert(join_rows(b) == join_rows(b.drop_last()) + seq!['\n'] + b.last());
        assert(join_rows(a) + seq!['\n'] + join_rows(b.drop_last()) + seq!['\n'] + b.last()
            =~= join_rows(a) + seq!['\n'] + (join_rows(b.drop_last()) + seq!['\n'] + b.last()));
    }
}

/// The joined text is the text before a row, the row, and the text after it.
pub proof fn lemma_split_at_row(rows: Seq<Seq<char>>, r: int)
    requires
        0 <= r < rows.len(),
    ensures
        join_rows(rows) == before_row(rows, r) + rows[r] + after_row(rows, r),
{
    let n = rows.len() as int;
    let mid = join_rows(rows.skip(r));
    if r < n - 1 {
        assert(rows.skip(r) =~= seq![rows[r]] + rows.skip(r + 1));
        lemma_join_append(seq![rows[r]], rows.skip(r + 1));
        assert(join_rows(seq![rows[r]]) == rows[r]);
        assert(mid == rows[r] + after_row(rows, r));
    } else {
        assert(rows.skip(r) =~= seq![rows[r]]);
        assert(mid == rows[r]);
        assert(mid =~= rows[r] + after_row(rows, r));
    }
    if r > 0 {
        assert(rows =~= rows.take(r) + rows.skip(r));
        lemma_join_append(rows.take(r), rows.skip(r));
        assert(join_rows(rows) =~= before_row(rows, r) + rows[r] + after_row(rows, r));
    } else {
        assert(rows.skip(0) =~= rows);
        assert(join_rows(rows) =~= before_row(rows, r) + rows[r] + after_row(rows, r));
    }
}

/// For plain rows, the text before row `r` is as long as the row's cursor index.
pub proof fn lemma_before_len(rows: Seq<Seq<char>>, r: int)
    requires
        plain_glyphs(),
        plain_rows(rows),
        0 <= r < rows.len(),
    ensures
        before_row(rows, r).len() == row_start(rows, r),
    decreases r,
{
    if r > 0 {
        lemma_before_len(rows, r - 1);
        assert(plain(rows[r - 1]));
        assert(glyph_count(rows[r - 1]) == rows[r - 1].len());
        assert(row_len(rows, r - 1) == rows[r - 1].len() + 1);
        if r == 1 {
            assert(rows.take(1) =~= seq![rows[0]]);
        } else {
            assert(rows.take(r).drop_last() =~= rows.take(r - 1));
            assert(rows.take(r).last() == rows[r - 1]);
        }
    }
}

/// For plain rows, the whole joined text is as long as the text's cursor indices count.
pub proof fn lemma_text_len_plain(rows: Seq<Seq<char>>)
    requires
        plain_glyphs(),
        plain_rows(rows),
        rows.len() > 0,
    ensures
        join_rows(rows).len() == text_len(rows),
{
    let n = rows.len() as int;
    lemma_before_len(rows, n - 1);
    lemma_split_at_row(rows, n - 1);
    assert(plain(rows[n - 1]));
    assert(row_start(rows, n) == row_start(rows, n - 1) + row_len(rows, n - 1));
}

/// Rows that agree before row `r` start row `r` at the same cursor index.
pub proof fn lemma_row_start_prefix(a: Seq<Seq<char>>, b: Seq<Seq<char>>, r: int)
    requires
        0 <= r < a.len(),
        r < b.len(),
        a.take(r) == b.take(r),
    ensures
        row_start(a, r) == row_start(b, r),
    decreases r,
{
    if r > 0 {
        assert(a.take(r - 1) =~= a.take(r).take(r - 1));
        assert(b.take(r - 1) =~= b.take(r).take(r - 1));
        lemma_row_start_prefix(a, b, r - 1);
        assert(a[r - 1] == a.take(r)[r - 1]);
        assert(b[r - 1] == b.take(r)[r - 1]);
    }
}

/// Replacing row `r` by a run of rows puts their joined text between the texts before and
/// after the row.
pub proof fn lemma_replace_row(rows: Seq<Seq<char>>, r: int, new_rows: Seq<Seq<char>>)
    requires
        0 <= r < rows.len(),
        new_rows.len() >= 1,
    ensures
        join_rows(rows.take(r) + new_rows + rows.skip(r + 1)) == before_row(rows, r) + join_rows(
            new_rows,
        ) + after_row(rows, r),
{
    let n = rows.len() as int;
    let tail = new_rows + rows.skip(r + 1);
    if r < n - 1 {
        lemma_join_append(new_rows, rows.skip(r + 1));
        assert(join_rows(tail) == join_rows(new_rows) + after_row(rows, r));
    } else {
        assert(rows.skip(r + 1) =~= Seq::<Seq<char>>::empty());
        assert(tail =~= new_rows);
        assert(join_rows(tail) =~= join_rows(new_rows) + after_row(rows, r));
    }
    assert(rows.take(r) + new_rows + rows.skip(r + 1) =~= rows.take(r) + tail);
    if r > 0 {
        lemma_join_append(rows.take(r), tail);
        assert(join_rows(rows.take(r) + tail) =~= before_row(rows, r) + join_rows(new_rows) + after_row(rows, r));
    } else {
        assert(rows.take(0) + tail =~= tail);
        assert(join_rows(tail) =~= before_row(rows, r) + join_rows(new_rows) + after_row(rows, r));
    }
}

/// The lines of plain text are plain rows.
pub proof fn lemma_lines_plain(t: Seq<char>)
    requires
        plain(t),
    ensures
        plain_rows(split_lines(t)),
    decreases t.len(),
{
    if t.len() > 0 {
        let d = t.drop_last();
        assert(plain(d)) by {
            assert forall|i: int| 0 <= i < d.len() implies (#[trigger] d[i] as u32) < 0x80 && d[i] != '\r' by {
                assert(d[i] == t[i]);
            }
        }
        lemma_lines_plain(d);
        lemma_split_lines_len(d);
        let prev = split_lines(d);
        let c = t.last();
        assert(c == t[t.len() - 1]);
        if c == '\n' {
            assert forall|r: int| 0 <= r < prev.push(Seq::<char>::empty()).len() implies plain_row(
                #[trigger] prev.push(Seq::<char>::empty())[r],
            ) by {
                if r < prev.len() {
                    assert(prev.push(Seq::<char>::empty())[r] == prev[r]);
                }
            }
        } else {
            let u = prev.update(prev.len() - 1, prev.last().push(c));
            assert forall|r: int| 0 <= r < u.len() implies plain_row(#[trigger] u[r]) by {
                if r < prev.len() - 1 {
                    assert(u[r] == prev[r]);
                } else {
                    let l = prev.last().push(c);
                    assert(plain_row(prev[prev.len() - 1]));
                    assert forall|i: int| 0 <= i < l.len() implies (#[trigger] l[i] as u32) < 0x80 && l[i] != '\r' && l[i] != '\n' by {
                        if i < l.len() - 1 {
                            assert(l[i] == prev[prev.len() - 1][i]);
                        }
                    }
                }
            }
        }
    }
}

/// What inserting plain text at column `a` of row `r` of plain rows does to the joined text
/// and where it leaves the cursor: the text goes in at that place, and the cursor right
/// after it.
#[verifier::rlimit(40)]
#[verifier::spinoff_prover]
pub proof fn lemma_insert_plain(w: TextView, t: Seq<char>)
    requires
        plain_glyphs(),
        plain_rows(w.rows),
        plain(t),
        w.selection.start == w.selection.end,
        w.cursor.row < w.rows.len(),
        w.cursor.column <= w.rows[w.cursor.row as int].len(),
        w.cursor.column + t.len() <= usize::MAX,
        w.cursor.row + split_lines(t).len() <= usize::MAX,
    ensures
        ({
            let r = w.cursor.row as int;
            let a = w.cursor.column as int;
            let m = w.rows[r];
            let u = after_insert_text(w, t);
            &&& join_rows(u.rows) == before_row(w.rows, r) + m.take(a) + t + m.skip(a) + after_row(w.rows, r)
            &&& cursor_index(u) == row_start(w.rows, r) + a + t.len()
            &&& glyph_count(t) == t.len()
        }),
{
    let rows = w.rows;
    let r = w.cursor.row as int;
    let a = w.cursor.column as int;
    let m = rows[r];
    assert(after_delete_selection(w) == w);
    let u = after_insert_text(w, t);
    assert(plain(m));
    assert(glyph_offset(m, a) == a);
    assert(glyph_count(t) == t.len());
    let lines = split_lines(t);
    lemma_split_lines_len(t);
    crate::laws::law_text_round_trip(t);
    lemma_lines_plain(t);
    let k = lines.len() as int;
    lemma_before_len(rows, r);
    if k == 1 {
        assert(join_rows(lines) == lines[0]);
        let x = m.take(a) + t + m.skip(a);
        assert(u.rows == rows.update(r, x));
        assert(rows.update(r, x) =~= rows.take(r) + seq![x] + rows.skip(r + 1));
        lemma_replace_row(rows, r, seq![x]);
        assert(join_rows(seq![x]) == x);
        assert(u.rows.take(r) =~= rows.take(r));
        lemma_row_start_prefix(u.rows, rows, r);
        assert(u.cursor == (TheCursor { row: r as usize, column: (a + t.len()) as usize }));
        assert(join_rows(u.rows) =~= before_row(rows, r) + m.take(a) + t + m.skip(a) + after_row(rows, r));
    } else {
        let p = m.take(a);
        let q = m.skip(a);
        let new_rows = seq![p + lines[0]] + lines.subrange(1, k - 1) + seq![lines[k - 1] + q];
        assert(u.rows == rows.take(r) + new_rows + rows.skip(r + 1));
        // the new rows join to the text between the two pieces of the row
        let l1 = lines.update(0, p + lines[0]);
        lemma_split_at_row(lines, 0);
        lemma_split_at_row(l1, 0);
        assert(l1.skip(1) =~= lines.skip(1));
        assert(join_rows(l1) =~= p + join_rows(lines));
        let l2 = l1.update(k - 1, l1[k - 1] + q);
        lemma_split_at_row(l1, k - 1);
        lemma_split_at_row(l2, k - 1);
        assert(l2.take(k - 1) =~= l1.take(k - 1));
        assert(join_rows(l2) =~= join_rows(l1) + q);
        assert(new_rows =~= l2);
        lemma_replace_row(rows, r, new_rows);
        assert(join_rows(u.rows) =~= before_row(rows, r) + p + t + q + after_row(rows, r));
        // where the cursor ends
        let u_rows = u.rows;
        let last = r + k - 1;
        assert(u.cursor == (TheCursor { row: last as usize, column: glyph_count(lines[k - 1]) as usize }));
        assert(plain(lines[k - 1]));
        assert(glyph_count(lines[k - 1]) == lines[k - 1].len());
        lemma_split_at_row(lines, k - 1);
        assert(lines[k - 1].len() <= t.len());
        assert(plain_rows(u_rows)) by {
            assert forall|i: int| 0 <= i < u_rows.len() implies plain_row(#[trigger] u_rows[i]) by {
                if i < r {
                    assert(u_rows[i] == rows[i]);
                } else if i >= r + k {
                    assert(u_rows[i] == rows[i - k + 1]);
                } else if i == r {
                    let x = p + lines[0];
                    assert(plain_row(lines[0]));
                    assert(plain_row(m));
                    assert forall|j: int| 0 <= j < x.len() implies (#[trigger] x[j] as u32) < 0x80 && x[j] != '\r' && x[j] != '\n' by {
                        if j < p.len() {
                            assert(x[j] == m[j]);
                        } else {
                            assert(x[j] == lines[0][j - p.len()]);
                        }
                    }
                } else if i == last {
                    let x = lines[k - 1] + q;
                    assert(plain_row(lines[k - 1]));
                    assert(plain_row(m));
                    assert forall|j: int| 0 <= j < x.len() implies (#[trigger] x[j] as u32) < 0x80 && x[j] != '\r' && x[j] != '\n' by {
                        if j < lines[k - 1].len() {
                            assert(x[j] == lines[k - 1][j]);
                        } else {
                            assert(x[j] == m[a + j - lines[k - 1].len()]);
                        }
                    }
                } else {
                    assert(u_rows[i] == lines[i - r]);
                }
            }
        }
        lemma_before_len(u_rows, last);
        lemma_split_at_row(u_rows, last);
        assert(u_rows[last] == lines[k - 1] + q);
        assert(u_rows.skip(last + 1) =~= rows.skip(r + 1));
        assert(after_row(u_rows, last) == after_row(rows, r));
        assert(cursor_index(u) == row_start(u_rows, last) + lines[k - 1].len());
    }
}

/// Every row before the last holds at least its linebreak, so row `r` starts at index `r` or
/// later.
pub proof fn lemma_row_start_ge(rows: Seq<Seq<char>>, r: int)
    requires
        0 <= r < rows.len(),
    ensures
        row_start(rows, r) >= r,
    decreases r,
{
    if r > 0 {
        lemma_row_start_ge(rows, r - 1);
    }
}

/// A cursor index at or after the start of some row has a row.
pub proof fn lemma_find_row(rows: Seq<Seq<char>>, idx: int, r: int)
    requires
        0 <= r < rows.len(),
        row_start(rows, r) <= idx,
    ensures
        is_row_of_index(rows, idx, row_of_index(rows, idx)),
    decreases rows.len() - r,
{
    if idx < row_end(rows, r) || r == rows.len() - 1 {
        lemma_row_of_index(rows, idx, r);
    } else {
        lemma_find_row(rows, idx, r + 1);
    }
}

/// In plain rows, a cursor index of the text lies in its row at a column up to the row's
/// length.
pub proof fn lemma_plain_index(rows: Seq<Seq<char>>, idx: int)
    requires
        plain_glyphs(),
        plain_rows(rows),
        rows.len() > 0,
        0 <= idx <= text_len(rows),
    ensures
        is_row_of_index(rows, idx, row_of_index(rows, idx)),
        idx <= row_start(rows, row_of_index(rows, idx)) + rows[row_of_index(rows, idx)].len(),
        glyph_count(rows[row_of_index(rows, idx)]) == rows[row_of_index(rows, idx)].len(),
{
    lemma_find_row(rows, idx, 0);
    let r = row_of_index(rows, idx);
    assert(plain(rows[r]));
    let n = rows.len() as int;
    assert(row_start(rows, n) == row_start(rows, n - 1) + row_len(rows, n - 1));
}

/// The characters of a plain row take one byte each.
pub proof fn lemma_plain_chars_before(s: Seq<char>, c: int)
    requires
        plain(s),
        0 <= c <= s.len(),
    ensures
        chars_before_byte(s, c) == c,
{
    crate::laws::lemma_ascii_byte_len(s, c);
    lemma_chars_before_byte(s, c);
}

/// Rows joined by linebreaks are plain text when the rows are.
pub proof fn lemma_join_plain(rows: Seq<Seq<char>>)
    requires
        plain_rows(rows),
    ensures
        plain(join_rows(rows)),
    decreases rows.len(),
{
    if rows.len() == 1 {
        assert(plain(rows[0]));
    } else if rows.len() > 1 {
        let d = rows.drop_last();
        assert forall|r: int| 0 <= r < d.len() implies plain_row(#[trigger] d[r]) by {
            assert(d[r] == rows[r]);
        }
        lemma_join_plain(d);
        let x = join_rows(d) + seq!['\n'] + rows.last();
        assert(plain(rows[rows.len() - 1]));
        assert forall|i: int| 0 <= i < x.len() implies (#[trigger] x[i] as u32) < 0x80 && x[i] != '\r' by {
            if i < join_rows(d).len() {
                assert(x[i] == join_rows(d)[i]);
            } else if i > join_rows(d).len() {
                assert(x[i] == rows.last()[i - join_rows(d).len() - 1]);
            }
        }
    }
}

/// Plain text has at most one line more than characters.
pub proof fn lemma_split_lines_bound(t: Seq<char>)
    ensures
        split_lines(t).len() <= t.len() + 1,
    decreases t.len(),
{
    if t.len() > 0 {
        lemma_split_lines_bound(t.drop_last());
        lemma_split_lines_len(t.drop_last());
    }
}

/// For plain rows, the text between two cursor indices is that stretch of the joined text.
pub proof fn lemma_text_between_plain(rows: Seq<Seq<char>>, s: int, e: int)
    requires
        plain_glyphs(),
        plain_rows(rows),
        rows.len() > 0,
        0 <= s <= e <= text_len(rows),
    ensures
        text_between(rows, s, e) == join_rows(rows).subrange(s, e),
{
    let y = join_rows(rows);
    lemma_plain_index(rows, s);
    lemma_plain_index(rows, e);
    let sr = row_of_index(rows, s);
    let er = row_of_index(rows, e);
    crate::model::lemma_row_of_index_mono(rows, s, e, sr, er);
    let a = s - row_start(rows, sr);
    let b = e - row_start(rows, er);
    lemma_plain_chars_before(rows[sr], a);
    lemma_plain_chars_before(rows[er], b);
    lemma_split_at_row(rows, sr);
    lemma_before_len(rows, sr);
    if sr == er {
        assert(text_between(rows, s, e) == rows[sr].subrange(a, b));
        assert(y.subrange(s, e) =~= rows[sr].subrange(a, b));
    } else {
        lemma_split_at_row(rows, er);
        lemma_before_len(rows, er);
        let p = rows.take(er);
        lemma_split_at_row(p, sr);
        assert(p.take(sr) =~= rows.take(sr));
        assert(before_row(p, sr) == before_row(rows, sr));
        assert(p[sr] == rows[sr]);
        assert(before_row(rows, er) == join_rows(p) + seq!['\n']);
        let x = rows[er].take(b);
        let z = rows.subrange(sr + 1, er).push(x);
        if er == sr + 1 {
            assert(z =~= seq![x]);
            assert(join_rows(z) == x);
            assert(after_row(p, sr) =~= Seq::<char>::empty());
            assert(y.subrange(s, e) =~= rows[sr].skip(a) + seq!['\n'] + x);
        } else {
            assert(p.skip(sr + 1) =~= rows.subrange(sr + 1, er));
            assert(z =~= rows.subrange(sr + 1, er) + seq![x]);
            lemma_join_append(rows.subrange(sr + 1, er), seq![x]);
            assert(join_rows(seq![x]) == x);
            assert(y.subrange(s, e) =~= rows[sr].skip(a) + seq!['\n'] + (join_rows(rows.subrange(sr + 1, er)) + seq!['\n'] + x));
        }
        assert(text_between(rows, s, e) =~= rows[sr].skip(a) + seq!['\n'] + join_rows(z));
    }
}

/// Deleting glyph columns `x..y` of plain text removes those characters.
pub proof fn lemma_delete_plain_glyphs(m: Seq<char>, x: int, y: int)
    requires
        plain_glyphs(),
        plain(m),
        0 <= x <= y <= m.len(),
    ensures
        delete_glyphs(m, x, y) == m.take(x) + m.skip(y),
{
    assert(glyph_count(m) == m.len());
    assert(glyph_offset(m, x) == x);
    assert(glyph_offset(m, y) == y);
    if x == y {
        assert(m.take(x) + m.skip(y) =~= m);
    }
}

/// The front of one plain row followed by the back of another is a plain row.
pub proof fn lemma_plain_row_join(p: Seq<char>, q: Seq<char>, a: int, b: int)
    requires
        plain_row(p),
        plain_row(q),
        0 <= a <= p.len(),
        0 <= b <= q.len(),
    ensures
        plain_row(p.take(a) + q.skip(b)),
{
    let h = p.take(a) + q.skip(b);
    assert forall|i: int| 0 <= i < h.len() implies (#[trigger] h[i] as u32) < 0x80 && h[i] != '\r' && h[i] != '\n' by {
        if i < a {
            assert(h[i] == p[i]);
        } else {
            assert(h[i] == q[b + i - a]);
        }
    }
}

/// What deleting a selection does to plain rows: the selected stretch of the joined text
/// goes, its first and last rows join, and the cursor, when it lay in the selection or at
/// its end, goes to where the selection started.  The selection may start on a linebreak
/// only when that linebreak is all it holds.
pub proof fn lemma_delete_plain(v: TextView)
    requires
        plain_glyphs(),
        plain_rows(v.rows),
        v.rows.len() > 0,
        v.selection.start < v.selection.end <= text_len(v.rows),
        v.selection.start <= cursor_index(v) <= v.selection.end,
        ({
            let sr = row_of_index(v.rows, v.selection.start as int);
            v.selection.start == row_start(v.rows, sr) + v.rows[sr].len() && sr < v.rows.len() - 1
                ==> v.selection.end == v.selection.start + 1
        }),
    ensures
        ({
            let rows = v.rows;
            let s = v.selection.start as int;
            let e = v.selection.end as int;
            let sr = row_of_index(rows, s);
            let er = row_of_index(rows, e);
            let a = s - row_start(rows, sr);
            let b = e - row_start(rows, er);
            let h = rows[sr].take(a) + rows[er].skip(b);
            let u = after_delete_selection(v);
            &&& is_row_of_index(rows, s, sr)
            &&& is_row_of_index(rows, e, er)
            &&& sr <= er
            &&& 0 <= a <= rows[sr].len()
            &&& 0 <= b <= rows[er].len()
            &&& u.rows == rows.take(sr) + seq![h] + rows.skip(er + 1)
            &&& u.cursor == (TheCursor { row: sr as usize, column: a as usize })
            &&& u.selection == (TheSelection { start: 0, end: 0 })
            &&& plain_rows(u.rows)
        }),
{
    let rows = v.rows;
    let sel = v.selection;
    let s = sel.start as int;
    let e = sel.end as int;
    lemma_plain_index(rows, s);
    lemma_plain_index(rows, e);
    let sr = row_of_index(rows, s);
    let er = row_of_index(rows, e);
    crate::model::lemma_row_of_index_mono(rows, s, e, sr, er);
    let rs = row_start(rows, sr) as int;
    let a = s - rs;
    let b = e - row_start(rows, er);
    let h = rows[sr].take(a) + rows[er].skip(b);
    let n = rows.len() as int;
    assert(plain_row(rows[sr]));
    assert(plain_row(rows[er]));
    lemma_plain_row_join(rows[sr], rows[er], a, b);
    let re = row_end(rows, sr) as int;
    // the selected range of the first row, and the merged rows
    if sr == er {
        assert(sr < n - 1 ==> e <= rs + rows[sr].len());
        assert(first_row_range(rows, sel) == (s, e));
        assert(merged_rows(rows, sel) == rows);
        lemma_delete_plain_glyphs(rows[sr], a, b);
        assert(rows_without_selection(rows, sel) == rows.update(sr, h));
        assert(rows.update(sr, h) =~= rows.take(sr) + seq![h] + rows.skip(er + 1));
    } else if a < rows[sr].len() {
        lemma_row_start_mono(rows, sr + 1, er);
        assert(first_row_range(rows, sel) == (s, re - 1));
        let tail = delete_glyphs(rows[er], 0, b);
        lemma_delete_plain_glyphs(rows[er], 0, b);
        assert(rows[er].take(0) + rows[er].skip(b) =~= rows[er].skip(b));
        let m = rows[sr] + rows[er].skip(b);
        lemma_plain_row_join(rows[sr], rows[er], rows[sr].len() as int, b);
        assert(rows[sr].take(rows[sr].len() as int) =~= rows[sr]);
        assert(merged_rows(rows, sel) == rows.take(sr) + seq![m] + rows.skip(er + 1));
        let rows1 = merged_rows(rows, sel);
        assert(rows1[sr] == m);
        lemma_delete_plain_glyphs(m, a, rows[sr].len() as int);
        assert(m.take(a) + m.skip(rows[sr].len() as int) =~= h);
        assert(rows_without_selection(rows, sel) == rows1.update(sr, h));
        assert(rows1.update(sr, h) =~= rows.take(sr) + seq![h] + rows.skip(er + 1));
    } else {
        assert(e == s + 1);
        assert(row_start(rows, sr + 1) == re);
        assert(is_row_of_index(rows, e, sr + 1));
        lemma_row_of_index(rows, e, sr + 1);
        assert(b == 0);
        assert(first_row_range(rows, sel) == (re - 1, re));
        lemma_delete_plain_glyphs(rows[er], 0, 0);
        let m = rows[sr].push('\n') + rows[er];
        assert(merged_rows(rows, sel) == rows.take(sr) + seq![m] + rows.skip(er + 1));
        let rows1 = merged_rows(rows, sel);
        assert(rows1[sr] == m);
        assert(plain(m)) by {
            assert forall|i: int| 0 <= i < m.len() implies (#[trigger] m[i] as u32) < 0x80 && m[i] != '\r' by {
                if i < a {
                    assert(m[i] == rows[sr][i]);
                } else if i > a {
                    assert(m[i] == rows[er][i - a - 1]);
                }
            }
        }
        lemma_delete_plain_glyphs(m, a, a + 1);
        assert(m.take(a) + m.skip(a + 1) =~= h);
        assert(rows_without_selection(rows, sel) == rows1.update(sr, h));
        assert(rows1.update(sr, h) =~= rows.take(sr) + seq![h] + rows.skip(er + 1));
    }
    let rows2 = rows.take(sr) + seq![h] + rows.skip(er + 1);
    assert(rows_without_selection(rows, sel) == rows2);
    assert(plain_rows(rows2)) by {
        assert forall|i: int| 0 <= i < rows2.len() implies plain_row(#[trigger] rows2[i]) by {
            if i < sr {
                assert(rows2[i] == rows[i]);
            } else if i > sr {
                assert(rows2[i] == rows[i + er - sr]);
            }
        }
    }
    // where the cursor goes
    assert(rows2.take(sr) =~= rows.take(sr));
    lemma_row_start_prefix(rows2, rows, sr);
    assert(first_row_range(rows, sel).0 == s);
    let ci = cursor_index(v);
    if ci == e {
        assert(glyph_count(h) == h.len());
        assert(is_row_of_index(rows2, s, sr));
        lemma_row_of_index(rows2, s, sr);
    }
}

/// Putting back, into the row that a deletion left, the stretch of the joined text that the
/// deletion took gives the joined text again.
pub proof fn lemma_rejoin(rows: Seq<Seq<char>>, sr: int, er: int, a: int, b: int, t: Seq<char>)
    requires
        plain_glyphs(),
        plain_rows(rows),
        0 <= sr <= er < rows.len(),
        0 <= a <= rows[sr].len(),
        0 <= b <= rows[er].len(),
        row_start(rows, sr) + a <= row_start(rows, er) + b,
        t == join_rows(rows).subrange(row_start(rows, sr) + a, row_start(rows, er) + b),
    ensures
        ({
            let h = rows[sr].take(a) + rows[er].skip(b);
            let urows = rows.take(sr) + seq![h] + rows.skip(er + 1);
            &&& before_row(urows, sr) + h.take(a) + t + h.skip(a) + after_row(urows, sr)
                == join_rows(rows)
            &&& row_start(urows, sr) == row_start(rows, sr)
            &&& urows[sr] == h
        }),
{
    let y = join_rows(rows);
    let s = row_start(rows, sr) + a;
    let e = row_start(rows, er) + b;
    let h = rows[sr].take(a) + rows[er].skip(b);
    let urows = rows.take(sr) + seq![h] + rows.skip(er + 1);
    lemma_split_at_row(rows, sr);
    lemma_before_len(rows, sr);
    lemma_split_at_row(rows, er);
    lemma_before_len(rows, er);
    lemma_row_start_mono(rows, sr, er);
    assert(urows.take(sr) =~= rows.take(sr));
    assert(before_row(urows, sr) == before_row(rows, sr));
    assert(urows.skip(sr + 1) =~= rows.skip(er + 1));
    assert(after_row(urows, sr) == after_row(rows, er));
    lemma_row_start_prefix(urows, rows, sr);
    assert(h.take(a) =~= rows[sr].take(a));
    assert(h.skip(a) =~= rows[er].skip(b));
    assert(y.take(s) =~= before_row(rows, sr) + rows[sr].take(a));
    assert(y.skip(e) =~= rows[er].skip(b) + after_row(rows, er));
    assert(before_row(urows, sr) + h.take(a) + t + h.skip(a) + after_row(urows, sr) =~= y.take(s) + t + y.skip(e));
    assert(y.take(s) + t + y.skip(e) =~= y);
}

/// Cutting the selection of plain rows can be asked for: its ends fall between characters
/// and come in order, and the text left is shorter by the selection.
pub proof fn lemma_cut_callable(v: TextView)
    requires
        plain_glyphs(),
        plain_rows(v.rows),
        v.rows.len() > 0,
        v.selection.start < v.selection.end <= text_len(v.rows),
        v.selection.start <= cursor_index(v) <= v.selection.end,
        ({
            let sr = row_of_index(v.rows, v.selection.start as int);
            v.selection.start == row_start(v.rows, sr) + v.rows[sr].len() && sr < v.rows.len() - 1
                ==> v.selection.end == v.selection.start + 1
        }),
    ensures
        text_between_readable(v.rows, v.selection.start as int, v.selection.end as int),
        text_len(after_delete_selection(v).rows) + (v.selection.end - v.selection.start)
            == text_len(v.rows),
{
    let rows = v.rows;
    let s = v.selection.start as int;
    let e = v.selection.end as int;
    lemma_delete_plain(v);
    let sr = row_of_index(rows, s);
    let er = row_of_index(rows, e);
    let a = s - row_start(rows, sr);
    let b = e - row_start(rows, er);
    let u = after_delete_selection(v);
    crate::laws::lemma_ascii_byte_len(rows[sr], a);
    lemma_chars_before_byte(rows[sr], a);
    crate::laws::lemma_ascii_byte_len(rows[er], b);
    lemma_chars_before_byte(rows[er], b);
    let y = join_rows(rows);
    lemma_text_len_plain(rows);
    let t = y.subrange(s, e);
    lemma_rejoin(rows, sr, er, a, b, t);
    let h = rows[sr].take(a) + rows[er].skip(b);
    lemma_split_at_row(u.rows, sr);
    lemma_text_len_plain(u.rows);
    assert(h =~= h.take(a) + h.skip(a));
}

} // verus!
