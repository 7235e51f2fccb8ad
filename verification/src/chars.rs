//! Conversions between strings and sequences of characters, glyph counting and byte
//! offsets, and the few outside calls on characters and strings the text editing needs.
use vstd::prelude::*;
use vstd::std_specs::iter::IteratorSpec;
use unicode_segmentation::UnicodeSegmentation;
use crate::model::{
    concat_all, glyph_count, glyph_offset, grapheme_clusters, lemma_concat_all_push, segmented,
    strings_view, well_segmented, byte_len, utf8_width, split_lines, join_rows,
    char_is_whitespace, char_is_alphanumeric,
};

verus! {

/// The extended grapheme clusters of `s`, as `UnicodeSegmentation::graphemes(s, true)` yields them.
/// Trusted: the result is named `grapheme_clusters`; as the crate's iterator hands out the
/// slices from one boundary to the next, starting at 0 and stopping at the end, the clusters
/// are non-empty and concatenate to `s`.
#[verifier::external_body]
pub(crate) fn graphemes_of(s: &str) -> (gs: Vec<String>)
    ensures
        strings_view(gs@) == grapheme_clusters(s@),
        segmented(s@, strings_view(gs@)),
{
    s.graphemes(true).map(|g| g.to_string()).collect()
}

/// Appends one character to a `String`.
/// Trusted: `String::push` appends `c` to the end of the string and leaves the rest unchanged.
#[verifier::external_body]
pub(crate) fn push_char(s: &mut String, c: char)
    ensures
        final(s)@ == old(s)@.push(c),
{
    s.push(c);
}

/// Whether a character has the Unicode `White_Space` property, as `char::is_whitespace`
/// tells.
pub(crate) fn is_whitespace(c: char) -> (b: bool)
    ensures
        b == char_is_whitespace(c),
{
    let n = c as u32;
    (0x09 <= n && n <= 0x0D) || n == 0x20 || n == 0x85 || n == 0xA0 || n == 0x1680
        || (0x2000 <= n && n <= 0x200A) || n == 0x2028 || n == 0x2029 || n == 0x202F
        || n == 0x205F || n == 0x3000
}

/// Trusted: `char::is_alphanumeric`, named `char_is_alphanumeric`.
#[verifier::external_body]
pub(crate) fn is_alphanumeric(c: char) -> (b: bool)
    ensures
        b == char_is_alphanumeric(c),
{
    c.is_alphanumeric()
}

/// The characters of a string, in order.
pub fn chars_of(s: &str) -> (v: Vec<char>)
    ensures
        v@ == s@,
{
    let mut v: Vec<char> = Vec::new();
    let mut it = s.chars();
    let ghost all = s@;
    loop
        invariant
            it.remaining() == all.skip(v@.len() as int),
            v@ == all.take(v@.len() as int),
            v@.len() <= all.len(),
            all == s@,
        ensures
            v@ == all,
        decreases all.len() - v@.len(),
    {
        match it.next() {
            Some(c) => {
                assert(all.take(v@.len() as int).push(c) =~= all.take(v@.len() + 1 as int));
                assert(all.skip(v@.len() as int).drop_first() =~= all.skip(v@.len() + 1 as int));
                v.push(c);
            }
            None => {
                assert(all.skip(v@.len() as int).len() == 0);
                assert(v@ =~= all);
                break;
            }
        }
    }
    v
}

/// A string made of the given characters, in order.
pub fn string_of(v: &Vec<char>) -> (s: String)
    ensures
        s@ == v@,
{
    let mut s = String::new();
    let mut i: usize = 0;
    while i < v.len()
        invariant
            i <= v.len(),
            s@ == v@.take(i as int),
        decreases v.len() - i,
    {
        push_char(&mut s, v[i]);
        assert(v@.take(i as int).push(v@[i as int]) =~= v@.take(i + 1));
        i += 1;
    }
    assert(v@.take(v.len() as int) =~= v@);
    s
}

/// Number of glyphs of `s`.
pub fn glyph_count_of(s: &str) -> (n: usize)
    ensures
        n == glyph_count(s@),
        well_segmented(s@),
{
    let gs = graphemes_of(s);
    gs.len()
}

/// Character offset at which glyph `k` of `s` starts, or the length of `s` when `s` has
/// no glyph `k`.
pub fn glyph_char_offset(s: &str, k: usize) -> (o: usize)
    ensures
        o == glyph_offset(s@, k as int),
        o <= s@.len(),
        well_segmented(s@),
{
    let gs = graphemes_of(s);
    let ghost gv = strings_view(gs@);
    proof {
        crate::model::lemma_glyphs(s@);
    }
    let all = chars_of(s);
    if k >= gs.len() {
        return all.len();
    }
    let n = all.len();
    let mut o: usize = 0;
    let mut i: usize = 0;
    while i < k
        invariant
            k < gs.len(),
            i <= k,
            gv == strings_view(gs@),
            gv == grapheme_clusters(s@),
            segmented(s@, gv),
            all@ == s@,
            n == all@.len(),
            o == concat_all(gv.take(i as int)).len(),
        decreases k - i,
    {
        let c = chars_of(&gs[i]);
        proof {
            assert(gv[i as int] == gs@[i as int]@);
            assert(gv.take(i as int).push(gv[i as int]) =~= gv.take(i + 1 as int));
            lemma_concat_all_push(gv.take(i as int), gv[i as int]);
            crate::model::lemma_concat_take_len(gv, i + 1 as int);
            assert(concat_all(gv.take(i + 1 as int)).len() == o + c@.len());
            assert(concat_all(gv) == s@);
            assert(all@.len() == s@.len());
            assert(o + c@.len() <= n);
        }
        o = o + c.len();
        i += 1;
    }
    proof {
        crate::model::lemma_concat_take_len(gv, k as int);
    }
    o
}

/// `v` with the characters from `a` up to `b` replaced by `t`.
pub fn splice_chars(v: &Vec<char>, a: usize, b: usize, t: &Vec<char>) -> (r: Vec<char>)
    requires
        a <= b <= v@.len(),
    ensures
        r@ == v@.take(a as int) + t@ + v@.skip(b as int),
{
    let mut r: Vec<char> = Vec::new();
    let mut i: usize = 0;
    while i < a
        invariant
            i <= a <= b <= v@.len(),
            r@ == v@.take(i as int),
        decreases a - i,
    {
        r.push(v[i]);
        assert(v@.take(i as int).push(v@[i as int]) =~= v@.take(i + 1 as int));
        i += 1;
    }
    let mut j: usize = 0;
    while j < t.len()
        invariant
            j <= t@.len(),
            r@ == v@.take(a as int) + t@.take(j as int),
        decreases t@.len() - j,
    {
        r.push(t[j]);
        assert((v@.take(a as int) + t@.take(j as int)).push(t@[j as int]) =~= v@.take(a as int) + t@.take(j + 1 as int));
        j += 1;
    }
    assert(t@.take(t@.len() as int) =~= t@);
    let mut k: usize = b;
    while k < v.len()
        invariant
            a <= b <= k <= v@.len(),
            r@ == v@.take(a as int) + t@ + v@.subrange(b as int, k as int),
        decreases v@.len() - k,
    {
        r.push(v[k]);
        assert((v@.take(a as int) + t@ + v@.subrange(b as int, k as int)).push(v@[k as int]) =~= v@.take(a as int) + t@ + v@.subrange(b as int, k + 1 as int));
        k += 1;
    }
    assert(v@.subrange(b as int, v@.len() as int) =~= v@.skip(b as int));
    r
}

/// Number of bytes of the UTF-8 encoding of `c`.
pub fn utf8_width_of(c: char) -> (n: usize)
    ensures
        n == utf8_width(c),
{
    let u = c as u32;
    if u < 0x80 {
        1
    } else if u < 0x800 {
        2
    } else if u < 0x10000 {
        3
    } else {
        4
    }
}

/// Number of bytes of the UTF-8 encoding of the first `k` characters of `v`.
pub fn byte_len_of_prefix(v: &Vec<char>, k: usize) -> (n: usize)
    requires
        k <= v@.len(),
        byte_len(v@.take(k as int)) <= usize::MAX,
    ensures
        n == byte_len(v@.take(k as int)),
{
    let mut n: usize = 0;
    let mut i: usize = 0;
    while i < k
        invariant
            i <= k <= v@.len(),
            byte_len(v@.take(k as int)) <= usize::MAX,
            n == byte_len(v@.take(i as int)),
        decreases k - i,
    {
        proof {
            assert(v@.take(i + 1 as int).drop_last() =~= v@.take(i as int));
            crate::model::lemma_byte_len_take_mono(v@, i + 1 as int, k as int);
        }
        n = n + utf8_width_of(v[i]);
        i += 1;
    }
    n
}

/// Number of characters of `v` before byte offset `b`, when `b` falls between two characters.
pub fn char_index_of_byte(v: &Vec<char>, b: usize) -> (k: Option<usize>)
    ensures
        match k {
            Some(k) => k <= v@.len() && byte_len(v@.take(k as int)) == b,
            None => !crate::model::is_byte_boundary(v@, b as int),
        },
{
    let mut n: usize = 0;
    let mut i: usize = 0;
    while i < v.len()
        invariant
            i <= v@.len(),
            n == byte_len(v@.take(i as int)),
            n <= b,
            forall|j: int| 0 <= j < i ==> #[trigger] byte_len(v@.take(j)) < b,
        decreases v@.len() - i,
    {
        if n == b {
            return Some(i);
        }
        proof {
            assert(v@.take(i + 1 as int).drop_last() =~= v@.take(i as int));
        }
        let w = utf8_width_of(v[i]);
        if w > b - n {
            proof {
                assert forall|j: int| 0 <= j <= v@.len() implies #[trigger] byte_len(v@.take(j)) != b by {
                    if j > i {
                        crate::model::lemma_byte_len_take_mono(v@, i + 1 as int, j);
                    }
                }
            }
            return None;
        }
        n = n + w;
        i += 1;
    }
    if n == b {
        return Some(i);
    }
    assert(v@.take(v@.len() as int) =~= v@);
    None
}

/// The views of a sequence of character vectors.
pub open spec fn lines_view(v: Seq<Vec<char>>) -> Seq<Seq<char>> {
    v.map_values(|l: Vec<char>| l@)
}

/// The pieces of `v` between its linebreaks.
pub fn split_chars_lines(v: &Vec<char>) -> (lines: Vec<Vec<char>>)
    ensures
        lines_view(lines@) == split_lines(v@),
{
    let mut lines: Vec<Vec<char>> = Vec::new();
    let mut cur: Vec<char> = Vec::new();
    let mut i: usize = 0;
    while i < v.len()
        invariant
            i <= v.len(),
            lines_view(lines@).push(cur@) == split_lines(v@.take(i as int)),
        decreases v.len() - i,
    {
        let ghost prev = lines_view(lines@).push(cur@);
        proof {
            assert(v@.take(i + 1 as int).drop_last() =~= v@.take(i as int));
            assert(v@.take(i + 1 as int).last() == v@[i as int]);
        }
        if v[i] == '\n' {
            lines.push(cur);
            cur = Vec::new();
            assert(lines_view(lines@).push(cur@) =~= prev.push(Seq::empty()));
        } else {
            cur.push(v[i]);
            assert(lines_view(lines@).push(cur@) =~= prev.update(prev.len() - 1, prev.last().push(v@[i as int])));
        }
        i += 1;
    }
    lines.push(cur);
    assert(v@.take(v@.len() as int) =~= v@);
    assert(lines_view(lines@) =~= split_lines(v@));
    lines
}

/// `n` spaces.
pub fn spaces_vec(n: usize) -> (v: Vec<char>)
    ensures
        v@ == crate::textops::spaces(n as nat),
{
    let mut v: Vec<char> = Vec::new();
    let mut i: usize = 0;
    while i < n
        invariant
            i <= n,
            v@ == crate::textops::spaces(i as nat),
        decreases n - i,
    {
        v.push(' ');
        i += 1;
        assert(v@ =~= crate::textops::spaces(i as nat));
    }
    v
}

/// The lines joined by linebreaks.
pub fn join_lines(lines: &Vec<Vec<char>>) -> (r: Vec<char>)
    ensures
        r@ == join_rows(lines_view(lines@)),
{
    let ghost lv = lines_view(lines@);
    let mut acc: Vec<char> = Vec::new();
    let mut i: usize = 0;
    while i < lines.len()
        invariant
            i <= lines@.len(),
            lv == lines_view(lines@),
            acc@ == join_rows(lv.take(i as int)),
        decreases lines@.len() - i,
    {
        proof {
            assert(lv.take(i + 1 as int).drop_last() =~= lv.take(i as int));
            assert(lv.take(i + 1 as int).last() == lv[i as int]);
            if i == 0 {
                assert(lv.take(1) =~= seq![lv[0]]);
            }
        }
        if i > 0 {
            acc.push('\n');
        }
        let mut row = lines[i].clone();
        acc.append(&mut row);
        i += 1;
    }
    assert(lv.take(lines@.len() as int) =~= lv);
    acc
}

} // verus!
