//! Where the rows of a laid-out text stand, and how far the text is scrolled: the integer
//! part of the text renderer. Laying glyphs out and drawing them work in floating point and
//! are left to the caller, which hands over the row extents and the text's size.
use vstd::prelude::*;

use crate::widget::{TheDim, Vec2i};

verus! {

/// A pair of sizes or offsets in pixels.
#[derive(Clone, Copy, Debug, PartialEq, Eq, Structural)]
pub struct Vec2u {
    pub x: usize,
    pub y: usize,
}

/// Where a laid-out row stands, in pixels, and which glyphs it holds.
#[derive(Clone, Copy, Debug, PartialEq, Eq, Structural)]
pub struct TheRowInfo {
    pub top: usize,
    pub left: usize,
    pub bottom: usize,
    pub right: usize,
    pub baseline: usize,
    pub glyph_start: usize,
    pub glyph_end: usize,
}

/// The rows of a laid-out text and its scrolling: the visible area, the width of the
/// cursor, the padding (left, top, right, bottom), the size of the whole text, the rows, and
/// the scroll offset.
pub struct TheTextRenderer {
    pub left: usize,
    pub top: usize,
    pub width: usize,
    pub height: usize,
    pub cursor_width: usize,
    pub cursor_vertical_shrink: usize,
    pub indicate_space: bool,
    pub padding: (usize, usize, usize, usize),
    pub selection_extend: usize,
    pub actual_size: Vec2u,
    pub row_info: Vec<TheRowInfo>,
    pub scroll_offset: Vec2u,
}

/// The first row from `k` on whose bottom lies below `y`; the number of rows when there is
/// none.
pub open spec fn first_bottom_below(rows: Seq<TheRowInfo>, y: int, k: int) -> int
    decreases rows.len() - k,
{
    if k < 0 || k >= rows.len() {
        rows.len() as int
    } else if rows[k].bottom > y {
        k
    } else {
        first_bottom_below(rows, y, k + 1)
    }
}

/// The first row from `k` on whose top lies below `y`; the number of rows when there is none.
pub open spec fn first_top_below(rows: Seq<TheRowInfo>, y: int, k: int) -> int
    decreases rows.len() - k,
{
    if k < 0 || k >= rows.len() {
        rows.len() as int
    } else if rows[k].top > y {
        k
    } else {
        first_top_below(rows, y, k + 1)
    }
}

/// The rows in view, both ends included, for a view `height` high scrolled down by `y`:
/// none without rows; else from the first row whose bottom lies below the top of the view
/// (the first row when there is none) to the row before the first later row whose top lies
/// below the bottom of the view (the last row when there is none).
pub open spec fn visible_range(rows: Seq<TheRowInfo>, height: int, y: int) -> Option<(usize, usize)> {
    let n = rows.len() as int;
    if n == 0 {
        None
    } else {
        let f = first_bottom_below(rows, y, 0);
        let start = if f == n { 0 } else { f };
        let end = if start < n - 1 {
            let g = first_top_below(rows, height + y, start + 1);
            if g == n { n - 1 } else { g - 1 }
        } else {
            start
        };
        Some((start as usize, end as usize))
    }
}

/// The first rows that the searches find lie between where they start and the number of rows.
pub proof fn lemma_first_bounds(rows: Seq<TheRowInfo>, y: int, k: int)
    requires
        0 <= k <= rows.len(),
    ensures
        k <= first_bottom_below(rows, y, k) <= rows.len(),
        k <= first_top_below(rows, y, k) <= rows.len(),
    decreases rows.len() - k,
{
    if k < rows.len() {
        lemma_first_bounds(rows, y, k + 1);
    }
}

/// The rows in view are in order and exist.
pub proof fn lemma_visible_range(rows: Seq<TheRowInfo>, height: int, y: int)
    requires
        0 < rows.len() <= usize::MAX,
    ensures
        visible_range(rows, height, y) matches Some((s, e)) && s <= e < rows.len(),
{
    lemma_first_bounds(rows, y, 0);
    let n = rows.len() as int;
    let f = first_bottom_below(rows, y, 0);
    let start = if f == n { 0 } else { f };
    if start < n - 1 {
        lemma_first_bounds(rows, height + y, start + 1);
    }
}

/// The largest right edge of the rows `s..=e`.
pub open spec fn max_right(rows: Seq<TheRowInfo>, s: int, e: int) -> nat
    decreases e - s,
{
    if e <= s {
        rows[s].right as nat
    } else {
        let m = max_right(rows, s, e - 1);
        if rows[e].right > m { rows[e].right as nat } else { m }
    }
}

/// `a - b`, or 0 when `b` is larger.
pub open spec fn saturating_sub(a: int, b: int) -> int {
    if a > b { a - b } else { 0 }
}

/// `v` brought into the range from 0 to `hi`.
pub open spec fn clamp_offset(v: int, hi: int) -> int {
    let low = if v < 0 { 0 } else { v };
    if low < hi { low } else { hi }
}

/// The widest a scroll may show: the widest row in view when the scroll keeps to the rows in
/// view, else the width of the whole text.
pub open spec fn scroll_width(r: TheTextRenderer, visible_constrained: bool) -> int {
    if visible_constrained {
        match visible_range(r.row_info@, r.height as int, r.scroll_offset.y as int) {
            Some((s, e)) => max_right(r.row_info@, s as int, e as int) as int,
            None => r.actual_size.x as int,
        }
    } else {
        r.actual_size.x as int
    }
}

/// The scroll offset after scrolling by `delta`: none without rows; else each part moved by
/// `delta` and kept between 0 and as far as the text reaches past the view.
pub open spec fn scrolled_offset(r: TheTextRenderer, delta: Vec2i, visible_constrained: bool) -> Vec2u {
    if r.row_info@.len() == 0 {
        Vec2u { x: 0, y: 0 }
    } else {
        Vec2u {
            x: clamp_offset(
                r.scroll_offset.x + delta.x,
                saturating_sub(scroll_width(r, visible_constrained), r.width as int),
            ) as usize,
            y: clamp_offset(
                r.scroll_offset.y + delta.y,
                saturating_sub(r.actual_size.y as int, r.height as int),
            ) as usize,
        }
    }
}

/// The scroll offset that brings into view a cursor whose left edge stands `text_left`
/// pixels into the text, on row `row`: the least move that shows the cursor's width and the
/// row's height.
pub open spec fn offset_showing_cursor(r: TheTextRenderer, text_left: int, row: int) -> Vec2u {
    let x1 = if r.scroll_offset.x < text_left { r.scroll_offset.x as int } else { text_left };
    let right = saturating_sub(text_left + r.cursor_width, r.width as int);
    let x2 = if x1 > right { x1 } else { right };
    let top = r.row_info@[row].top as int;
    let y1 = if r.scroll_offset.y < top { r.scroll_offset.y as int } else { top };
    let down = saturating_sub(r.row_info@[row].bottom as int, r.height as int);
    let y2 = if y1 > down { y1 } else { down };
    Vec2u { x: x2 as usize, y: y2 as usize }
}

impl TheTextRenderer {
    /// A renderer with nothing laid out: a cursor 2 pixels wide and 1 shorter than its row at
    /// each end, 5 pixels of padding left and right, and selections reaching 2 pixels past
    /// their glyphs.
    pub fn new() -> (r: Self)
        ensures
            r.left == 0 && r.top == 0 && r.width == 0 && r.height == 0,
            r.cursor_width == 2 && r.cursor_vertical_shrink == 1,
            !r.indicate_space,
            r.padding == (5usize, 0usize, 5usize, 0usize),
            r.selection_extend == 2,
            r.actual_size == (Vec2u { x: 0, y: 0 }),
            r.row_info@.len() == 0,
            r.scroll_offset == (Vec2u { x: 0, y: 0 }),
    {
        TheTextRenderer {
            left: 0,
            top: 0,
            width: 0,
            height: 0,
            cursor_width: 2,
            cursor_vertical_shrink: 1,
            indicate_space: false,
            padding: (5, 0, 5, 0),
            selection_extend: 2,
            actual_size: Vec2u { x: 0, y: 0 },
            row_info: Vec::new(),
            scroll_offset: Vec2u { x: 0, y: 0 },
        }
    }

    /// The area of the view with its padding around it.
    pub fn dim(&self) -> (d: TheDim)
        requires
            self.padding.0 <= self.left <= i32::MAX + self.padding.0,
            self.padding.1 <= self.top <= i32::MAX + self.padding.1,
            self.width + self.padding.0 + self.padding.2 <= i32::MAX,
            self.height + self.padding.1 + self.padding.3 <= i32::MAX,
        ensures
            d.x == self.left - self.padding.0,
            d.y == self.top - self.padding.1,
            d.width == self.width + self.padding.0 + self.padding.2,
            d.height == self.height + self.padding.1 + self.padding.3,
            d.buffer_x == 0 && d.buffer_y == 0,
    {
        TheDim::new(
            (self.left - self.padding.0) as i32,
            (self.top - self.padding.1) as i32,
            (self.width + self.padding.0 + self.padding.2) as i32,
            (self.height + self.padding.1 + self.padding.3) as i32,
        )
    }

    /// The text is wider than the view.
    pub fn is_horizontal_overflow(&self) -> (b: bool)
        ensures
            b == (self.actual_size.x > self.width),
    {
        self.actual_size.x > self.width
    }

    /// The text is higher than the view.
    pub fn is_vertical_overflow(&self) -> (b: bool)
        ensures
            b == (self.actual_size.y > self.height),
    {
        self.actual_size.y > self.height
    }

    /// The number of laid-out rows.
    pub fn row_count(&self) -> (n: usize)
        ensures
            n == self.row_info@.len(),
    {
        self.row_info.len()
    }

    /// The baseline of a row.
    pub fn row_baseline(&self, row_number: usize) -> (b: usize)
        requires
            row_number < self.row_info@.len(),
        ensures
            b == self.row_info@[row_number as int].baseline,
    {
        self.row_info[row_number].baseline
    }

    /// Places the view.
    pub fn set_dim(&mut self, left: usize, top: usize, width: usize, height: usize)
        ensures
            final(self).left == left && final(self).top == top,
            final(self).width == width && final(self).height == height,
            final(self).cursor_width == old(self).cursor_width,
            final(self).cursor_vertical_shrink == old(self).cursor_vertical_shrink,
            final(self).indicate_space == old(self).indicate_space,
            final(self).padding == old(self).padding,
            final(self).selection_extend == old(self).selection_extend,
            final(self).actual_size == old(self).actual_size,
            final(self).row_info@ == old(self).row_info@,
            final(self).scroll_offset == old(self).scroll_offset,
    {
        self.left = left;
        self.top = top;
        self.width = width;
        self.height = height;
    }

    /// The rows in view, both ends included (see `visible_range`).
    pub fn visible_rows(&self) -> (r: Option<(usize, usize)>)
        requires
            self.height + self.scroll_offset.y <= usize::MAX,
        ensures
            r == visible_range(self.row_info@, self.height as int, self.scroll_offset.y as int),
    {
        let n = self.row_info.len();
        if n == 0 {
            return None;
        }
        let ghost rows = self.row_info@;
        let y = self.scroll_offset.y;
        let mut i: usize = 0;
        while i < n && self.row_info[i].bottom <= y
            invariant
                rows == self.row_info@,
                n == rows.len(),
                i <= n,
                first_bottom_below(rows, y as int, 0) == first_bottom_below(rows, y as int, i as int),
            decreases n - i,
        {
            i += 1;
        }
        let start = if i == n { 0 } else { i };
        let end = if start < n - 1 {
            let bottom_edge = self.height + y;
            let mut j: usize = start + 1;
            while j < n && self.row_info[j].top <= bottom_edge
                invariant
                    rows == self.row_info@,
                    n == rows.len(),
                    start + 1 <= j <= n,
                    first_top_below(rows, bottom_edge as int, start + 1) == first_top_below(rows, bottom_edge as int, j as int),
                decreases n - j,
            {
                j += 1;
            }
            if j == n { n - 1 } else { j - 1 }
        } else {
            start
        };
        Some((start, end))
    }

    /// The largest right edge of the rows `s..=e`.
    fn widest_right(&self, s: usize, e: usize) -> (w: usize)
        requires
            s <= e < self.row_info@.len(),
        ensures
            w == max_right(self.row_info@, s as int, e as int),
    {
        let mut w = self.row_info[s].right;
        let mut k: usize = s;
        while k < e
            invariant
                s <= k <= e < self.row_info@.len(),
                w == max_right(self.row_info@, s as int, k as int),
            decreases e - k,
        {
            k += 1;
            if self.row_info[k].right > w {
                w = self.row_info[k].right;
            }
        }
        w
    }

    /// Scrolls by `delta`, keeping to the widest row in view when `visible_constrained`
    /// (see `scrolled_offset`); true when the offset changed, and always without rows.
    pub fn scroll(&mut self, delta: Vec2i, visible_constrained: bool) -> (changed: bool)
        requires
            old(self).scroll_offset.x <= i32::MAX,
            old(self).scroll_offset.y <= i32::MAX,
            i32::MIN <= old(self).scroll_offset.x + delta.x <= i32::MAX,
            i32::MIN <= old(self).scroll_offset.y + delta.y <= i32::MAX,
            visible_constrained ==> old(self).height + old(self).scroll_offset.y <= usize::MAX,
        ensures
            final(self).scroll_offset == scrolled_offset(*old(self), delta, visible_constrained),
            changed == (old(self).row_info@.len() == 0 || final(self).scroll_offset != old(self).scroll_offset),
            final(self).left == old(self).left && final(self).top == old(self).top,
            final(self).width == old(self).width && final(self).height == old(self).height,
            final(self).cursor_width == old(self).cursor_width,
            final(self).cursor_vertical_shrink == old(self).cursor_vertical_shrink,
            final(self).indicate_space == old(self).indicate_space,
            final(self).padding == old(self).padding,
            final(self).selection_extend == old(self).selection_extend,
            final(self).actual_size == old(self).actual_size,
            final(self).row_info@ == old(self).row_info@,
    {
        if self.row_info.len() == 0 {
            self.scroll_offset = Vec2u { x: 0, y: 0 };
            return true;
        }
        let previous = self.scroll_offset;
        proof {
            lemma_visible_range(self.row_info@, self.height as int, self.scroll_offset.y as int);
        }
        let max_width = if visible_constrained {
            match self.visible_rows() {
                Some((s, e)) => self.widest_right(s, e),
                None => self.actual_size.x,
            }
        } else {
            self.actual_size.x
        };
        let rightmost = if max_width > self.width { max_width - self.width } else { 0 };
        let x = self.scroll_offset.x as i32 + delta.x;
        let x = if x < 0 { 0 } else { x as usize };
        self.scroll_offset.x = if x < rightmost { x } else { rightmost };
        let downmost = if self.actual_size.y > self.height { self.actual_size.y - self.height } else { 0 };
        let y = self.scroll_offset.y as i32 + delta.y;
        let y = if y < 0 { 0 } else { y as usize };
        self.scroll_offset.y = if y < downmost { y } else { downmost };
        previous != self.scroll_offset
    }

    /// Scrolls so that the cursor shows, its left edge standing `text_left` pixels into the
    /// text, on row `cursor_row` (see `offset_showing_cursor`).
    pub fn scroll_to_cursor(&mut self, text_left: usize, cursor_row: usize)
        requires
            cursor_row < old(self).row_info@.len(),
            text_left + old(self).cursor_width <= usize::MAX,
        ensures
            final(self).scroll_offset == offset_showing_cursor(*old(self), text_left as int, cursor_row as int),
            final(self).left == old(self).left && final(self).top == old(self).top,
            final(self).width == old(self).width && final(self).height == old(self).height,
            final(self).cursor_width == old(self).cursor_width,
            final(self).cursor_vertical_shrink == old(self).cursor_vertical_shrink,
            final(self).indicate_space == old(self).indicate_space,
            final(self).padding == old(self).padding,
            final(self).selection_extend == old(self).selection_extend,
            final(self).actual_size == old(self).actual_size,
            final(self).row_info@ == old(self).row_info@,
    {
        if text_left < self.scroll_offset.x {
            self.scroll_offset.x = text_left;
        }
        let edge = text_left + self.cursor_width;
        let rightmost = if edge > self.width { edge - self.width } else { 0 };
        if rightmost > self.scroll_offset.x {
            self.scroll_offset.x = rightmost;
        }
        let upmost = self.row_info[cursor_row].top;
        if upmost < self.scroll_offset.y {
            self.scroll_offset.y = upmost;
        }
        let bottom = self.row_info[cursor_row].bottom;
        let downmost = if bottom > self.height { bottom - self.height } else { 0 };
        if downmost > self.scroll_offset.y {
            self.scroll_offset.y = downmost;
        }
    }
}

} // verus!
