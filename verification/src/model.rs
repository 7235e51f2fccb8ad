//! Mathematical model of a multi-row text: rows of characters, split into glyphs
//! (extended grapheme clusters), with cursor indices that count one position per
//! glyph and one per linebreak between rows.
use vstd::prelude::*;

verus! {

/// Whether a character has the Unicode `White_Space` property.
pub open spec fn char_is_whitespace(c: char) -> bool {
    let n = c as u32;
    ||| 0x09 <= n <= 0x0D
    ||| n == 0x20 || n == 0x85 || n == 0xA0 || n == 0x1680
    ||| 0x2000 <= n <= 0x200A
    ||| n == 0x2028 || n == 0x2029 || n == 0x202F || n == 0x205F || n == 0x3000
}

/// Whether a character has the Unicode `Alphabetic` or `Numeric` property.
pub uninterp spec fn char_is_alphanumeric(c: char) -> bool;

/// The extended grapheme clusters of a string, in order.
pub uninterp spec fn grapheme_clusters(s: Seq<char>) -> Seq<Seq<char>>;

/// Concatenation of a sequence of strings.
pub open spec fn concat_all(gs: Seq<Seq<char>>) -> Seq<char>
    decreases gs.len(),
{
    if gs.len() == 0 {
        Seq::empty()
    } else {
        concat_all(gs.drop_last()) + gs.last()
    }
}

/// `gs` cuts `s` into non-empty consecutive pieces.
pub open spec fn segmented(s: Seq<char>, gs: Seq<Seq<char>>) -> bool {
    &&& concat_all(gs) == s
    &&& forall|i: int| 0 <= i < gs.len() ==> #[trigger] gs[i].len() > 0
}

/// The grapheme clusters of `s` cut it into non-empty consecutive pieces.
pub open spec fn well_segmented(s: Seq<char>) -> bool {
    segmented(s, grapheme_clusters(s))
}

/// The views of a sequence of strings.
pub open spec fn strings_view(v: Seq<String>) -> Seq<Seq<char>> {
    v.map_values(|x: String| x@)
}

/// Number of glyphs of a row.
pub open spec fn glyph_count(s: Seq<char>) -> nat {
    grapheme_clusters(s).len()
}

/// Character offset at which glyph `k` of `s` starts; the end of `s` when there is no such glyph.
pub open spec fn glyph_offset(s: Seq<char>, k: int) -> int {
    if 0 <= k < glyph_count(s) {
        concat_all(grapheme_clusters(s).take(k)).len() as int
    } else {
        s.len() as int
    }
}

/// Length of row `r` in cursor positions: its glyphs, and its linebreak unless it is the last row.
pub open spec fn row_len(rows: Seq<Seq<char>>, r: int) -> nat {
    if r == rows.len() - 1 {
        glyph_count(rows[r])
    } else {
        glyph_count(rows[r]) + 1
    }
}

/// Cursor index at which row `r` starts.
pub open spec fn row_start(rows: Seq<Seq<char>>, r: int) -> nat
    decreases r,
{
    if r <= 0 {
        0
    } else {
        row_start(rows, r - 1) + row_len(rows, r - 1)
    }
}

/// Cursor index at which row `r` ends (after its linebreak, if any).
pub open spec fn row_end(rows: Seq<Seq<char>>, r: int) -> nat {
    row_start(rows, r) + row_len(rows, r)
}

/// Number of cursor positions of the whole text.
pub open spec fn text_len(rows: Seq<Seq<char>>) -> nat {
    row_start(rows, rows.len() as int)
}

/// The whole text fits the machine's index range.
pub open spec fn text_fits(rows: Seq<Seq<char>>) -> bool {
    text_len(rows) <= usize::MAX
}

/// The row that holds cursor index `index`: the row whose range holds it, or the last
/// row when the index lies at or past the end of the text.
pub open spec fn is_row_of_index(rows: Seq<Seq<char>>, index: int, r: int) -> bool {
    &&& 0 <= r < rows.len()
    &&& row_start(rows, r) <= index
    &&& (index < row_end(rows, r) || r == rows.len() - 1)
}

/// Rows joined by linebreaks.
pub open spec fn join_rows(rows: Seq<Seq<char>>) -> Seq<char>
    decreases rows.len(),
{
    if rows.len() == 0 {
        Seq::empty()
    } else if rows.len() == 1 {
        rows[0]
    } else {
        join_rows(rows.drop_last()) + seq!['\n'] + rows.last()
    }
}

/// Pieces of `s` between linebreaks.
pub open spec fn split_lines(s: Seq<char>) -> Seq<Seq<char>>
    decreases s.len(),
{
    if s.len() == 0 {
        seq![Seq::empty()]
    } else {
        let prev = split_lines(s.drop_last());
        if s.last() == '\n' {
            prev.push(Seq::empty())
        } else {
            prev.update(prev.len() - 1, prev.last().push(s.last()))
        }
    }
}

// ---------------------------------------------------------------- lemmas

pub proof fn lemma_concat_all_push(gs: Seq<Seq<char>>, g: Seq<char>)
    ensures
        concat_all(gs.push(g)) == concat_all(gs) + g,
{
    assert(gs.push(g).drop_last() =~= gs);
}

pub proof fn lemma_concat_take_len(gs: Seq<Seq<char>>, k: int)
    requires
        0 <= k <= gs.len(),
        forall|i: int| 0 <= i < gs.len() ==> #[trigger] gs[i].len() > 0,
    ensures
        concat_all(gs.take(k)).len() >= k,
        concat_all(gs.take(k)).len() <= concat_all(gs).len(),
        k < gs.len() ==> concat_all(gs.take(k)).len() < concat_all(gs).len(),
    decreases gs.len() - k,
{
    let t = gs.take(k);
    assert forall|i: int| 0 <= i < t.len() implies #[trigger] t[i].len() > 0 by {
        assert(t[i] == gs[i]);
    }
    lemma_concat_len_ge(t);
    if k < gs.len() {
        lemma_concat_take_len(gs, k + 1);
        assert(gs.take(k + 1).drop_last() =~= gs.take(k));
        assert(gs.take(k + 1).last() == gs[k]);
        assert(gs[k].len() > 0);
    } else {
        assert(gs.take(k) =~= gs);
        lemma_concat_len_ge(gs);
    }
}

pub proof fn lemma_concat_len_ge(gs: Seq<Seq<char>>)
    requires
        forall|i: int| 0 <= i < gs.len() ==> #[trigger] gs[i].len() > 0,
    ensures
        concat_all(gs).len() >= gs.len(),
    decreases gs.len(),
{
    if gs.len() > 0 {
        let d = gs.drop_last();
        assert forall|i: int| 0 <= i < d.len() implies #[trigger] d[i].len() > 0 by {
            assert(d[i] == gs[i]);
        }
        lemma_concat_len_ge(d);
        assert(gs.last() == gs[gs.len() - 1]);
    }
}

/// Facts on the glyphs of a well segmented string.
pub proof fn lemma_glyphs(s: Seq<char>)
    requires
        well_segmented(s),
    ensures
        glyph_count(s) <= s.len(),
        s.len() == 0 <==> glyph_count(s) == 0,
        forall|k: int| 0 <= k ==> #[trigger] glyph_offset(s, k) <= s.len(),
        forall|k: int| 0 <= k ==> #[trigger] glyph_offset(s, k) >= if k <= glyph_count(s) { k } else { glyph_count(s) as int },
        glyph_offset(s, glyph_count(s) as int) == s.len(),
{
    let gs = grapheme_clusters(s);
    lemma_concat_take_len(gs, 0);
    lemma_concat_take_len(gs, gs.len() as int);
    assert(gs.take(gs.len() as int) =~= gs);
    if gs.len() == 0 {
        assert(concat_all(gs) =~= Seq::<char>::empty());
    }
    if s.len() == 0 && gs.len() > 0 {
        lemma_concat_len_ge(gs);
    }
    assert forall|k: int| 0 <= k implies #[trigger] glyph_offset(s, k) <= s.len() && glyph_offset(s, k) >= if k <= glyph_count(s) { k } else { glyph_count(s) as int } by {
        if k < gs.len() {
            lemma_concat_take_len(gs, k);
        }
    }
}

/// Row starts grow with the row number, and a row ends where the next one starts.
pub proof fn lemma_row_start_mono(rows: Seq<Seq<char>>, a: int, b: int)
    requires
        0 <= a <= b,
    ensures
        row_start(rows, a) <= row_start(rows, b),
        a < b ==> row_end(rows, a) <= row_start(rows, b),
    decreases b - a,
{
    if a < b {
        lemma_row_start_mono(rows, a, b - 1);
    }
}

/// The row of an index is unique.
pub proof fn lemma_row_of_index_unique(rows: Seq<Seq<char>>, index: int, r1: int, r2: int)
    requires
        is_row_of_index(rows, index, r1),
        is_row_of_index(rows, index, r2),
    ensures
        r1 == r2,
{
    if r1 < r2 {
        lemma_row_start_mono(rows, r1, r2);
        lemma_row_start_mono(rows, r2, rows.len() - 1);
        lemma_row_start_mono(rows, r1, rows.len() - 1);
    } else if r2 < r1 {
        lemma_row_start_mono(rows, r2, r1);
        lemma_row_start_mono(rows, r1, rows.len() - 1);
        lemma_row_start_mono(rows, r2, rows.len() - 1);
    }
}

/// Rows of indices are ordered as the indices.
pub proof fn lemma_row_of_index_mono(rows: Seq<Seq<char>>, i: int, j: int, ri: int, rj: int)
    requires
        i <= j,
        is_row_of_index(rows, i, ri),
        is_row_of_index(rows, j, rj),
    ensures
        ri <= rj,
{
    if rj < ri {
        lemma_row_start_mono(rows, rj, ri);
    }
}

// ---------------------------------------------------------------- bytes

/// Number of bytes of the UTF-8 encoding of `c`.
pub open spec fn utf8_width(c: char) -> nat {
    if (c as u32) < 0x80 {
        1
    } else if (c as u32) < 0x800 {
        2
    } else if (c as u32) < 0x10000 {
        3
    } else {
        4
    }
}

/// Number of bytes of the UTF-8 encoding of `s`.
pub open spec fn byte_len(s: Seq<char>) -> nat
    decreases s.len(),
{
    if s.len() == 0 {
        0
    } else {
        byte_len(s.drop_last()) + utf8_width(s.last())
    }
}

/// Byte offset `b` of `s` falls between two characters (or at an end).
pub open spec fn is_byte_boundary(s: Seq<char>, b: int) -> bool {
    exists|k: int| 0 <= k <= s.len() && #[trigger] byte_len(s.take(k)) == b
}

/// Number of characters before byte offset `b` of `s`, where `b` is a boundary.
pub open spec fn chars_before_byte(s: Seq<char>, b: int) -> int {
    choose|k: int| 0 <= k <= s.len() && #[trigger] byte_len(s.take(k)) == b
}

pub proof fn lemma_byte_len_take_mono(s: Seq<char>, j: int, k: int)
    requires
        0 <= j <= k <= s.len(),
    ensures
        byte_len(s.take(j)) + (k - j) <= byte_len(s.take(k)),
    decreases k - j,
{
    if j < k {
        lemma_byte_len_take_mono(s, j, k - 1);
        assert(s.take(k).drop_last() =~= s.take(k - 1));
    }
}

/// The character count before a byte boundary is the one whose prefix has that many bytes.
pub proof fn lemma_chars_before_byte(s: Seq<char>, k: int)
    requires
        0 <= k <= s.len(),
    ensures
        is_byte_boundary(s, byte_len(s.take(k)) as int),
        chars_before_byte(s, byte_len(s.take(k)) as int) == k,
{
    let b = byte_len(s.take(k)) as int;
    assert(is_byte_boundary(s, b));
    let c = chars_before_byte(s, b);
    if c < k {
        lemma_byte_len_take_mono(s, c + 1, k);
        lemma_byte_len_take_mono(s, c, c + 1);
    } else if k < c {
        lemma_byte_len_take_mono(s, k + 1, c);
        lemma_byte_len_take_mono(s, k, k + 1);
    }
}

/// A text has at least one line.
pub proof fn lemma_split_lines_len(s: Seq<char>)
    ensures
        split_lines(s).len() >= 1,
    decreases s.len(),
{
    if s.len() > 0 {
        lemma_split_lines_len(s.drop_last());
    }
}

} // verus!
