//! Editing state of a multi-row text: rows, cursor and selection.
//!
//! Cursor index: each glyph of a row takes one position and each linebreak between rows
//! takes one more.
//!
//! ```text
//! cursor index  0   1   2   3   4
//!  glyph index    0   1   2   3
//!       cursor  |   |   |   |   |
//!         text    a   b   c   \n
//! ```
use vstd::prelude::*;

use crate::chars::{
    byte_len_of_prefix, char_index_of_byte, chars_of, glyph_char_offset, glyph_count_of,
    splice_chars, string_of, spaces_vec, split_chars_lines, lines_view, join_lines,
    is_whitespace, is_alphanumeric,
};
use crate::textops::{
    after_delete_selection, cursor_index, delete_glyphs, first_row_range, lemma_row_of_index,
    merged_rows, row_of_index, rows_without_selection, TextView, after_delete_char,
    last_non_space_end, space_deletion_start, selection_deletable, char_deletable,
    after_delete_text, after_insert_row, after_insert_row_here, row_insertable_here,
    rows_with_new_row, indent_of_new_row, first_non_space, spaces, cursor_down,
    after_insert_char, after_insert_char_here, char_insertable, char_insertable_here,
    after_insert_brackets, brackets_insertable, bracket_place, insert_at_glyph, insert_chars,
    closing_bracket, is_opening_bracket, after_insert_text, after_insert_text_here,
    text_insertable_here, after_move_lines, lines_to_move, lines_movable, rows_moved_up,
    rows_moved_down, text_between, row_bytes, text_between_readable, after_quick_select,
    quick_selectable, ends_run, run_start, run_end, word_char,
};
use crate::model::{byte_len, chars_before_byte, is_byte_boundary, lemma_byte_len_take_mono, lemma_chars_before_byte};
use crate::model::{
    glyph_count, glyph_offset, is_row_of_index, join_rows, lemma_glyphs, lemma_row_of_index_unique,
    lemma_row_start_mono, row_end, row_len, row_start, split_lines, strings_view, text_fits,
    text_len, well_segmented,
};

verus! {

/// A position in the text: a row and a glyph column within that row.
#[derive(Clone, Copy, Debug, PartialEq, Eq, Structural)]
pub struct TheCursor {
    pub row: usize,
    pub column: usize,
}

impl Default for TheCursor {
    fn default() -> (c: Self)
        ensures
            c.row == 0 && c.column == 0,
    {
        TheCursor { row: 0, column: 0 }
    }
}

impl TheCursor {
    pub fn new(row: usize, column: usize) -> (c: Self)
        ensures
            c.row == row && c.column == column,
    {
        TheCursor { row, column }
    }

    pub fn zero() -> (c: Self)
        ensures
            c.row == 0 && c.column == 0,
    {
        TheCursor { row: 0, column: 0 }
    }

    pub fn is_zero(&self) -> (b: bool)
        ensures
            b == (self.row == 0 && self.column == 0),
    {
        self.row == 0 && self.column == 0
    }

    pub fn reset(&mut self)
        ensures
            final(self).row == 0 && final(self).column == 0,
    {
        self.row = 0;
        self.column = 0;
    }
}

/// A range of cursor indices, `start` included and `end` excluded.
#[derive(Clone, Copy, Debug, PartialEq, Eq, Structural)]
pub struct TheSelection {
    pub start: usize,
    pub end: usize,
}

impl Default for TheSelection {
    fn default() -> (s: Self)
        ensures
            s.start == 0 && s.end == 0,
    {
        TheSelection { start: 0, end: 0 }
    }
}

impl TheSelection {
    pub fn intersects(&self, start: usize, end: usize) -> (b: bool)
        ensures
            b == (start < self.end && end > self.start),
    {
        start < self.end && end > self.start
    }

    pub fn is_none(&self) -> (b: bool)
        ensures
            b == (self.start == self.end),
    {
        self.start == self.end
    }

    pub fn reset(&mut self)
        ensures
            final(self).start == 0 && final(self).end == 0,
    {
        self.start = 0;
        self.end = 0;
    }
}

/// Text being edited: rows without their linebreaks, a cursor, a selection and options.
#[derive(Clone, Debug)]
pub struct TheTextEditState {
    /// Cursor position, in row and glyph column.
    pub cursor: TheCursor,
    /// The rows; linebreaks are not stored.
    pub rows: Vec<String>,
    /// Selected range, in cursor indices.
    pub selection: TheSelection,
    pub auto_bracket_completion: bool,
    pub auto_indent: bool,
    pub tab_spaces: usize,
}

impl Default for TheTextEditState {
    fn default() -> (s: Self)
        ensures
            s.text() == seq![Seq::<char>::empty()],
            s.cursor.row == 0 && s.cursor.column == 0,
            s.selection.start == 0 && s.selection.end == 0,
            !s.auto_bracket_completion,
            !s.auto_indent,
            s.tab_spaces == 4,
    {
        let mut rows: Vec<String> = Vec::new();
        rows.push(String::new());
        let s = TheTextEditState {
            cursor: TheCursor { row: 0, column: 0 },
            rows,
            selection: TheSelection { start: 0, end: 0 },
            auto_bracket_completion: false,
            auto_indent: false,
            tab_spaces: 4,
        };
        assert(s.text() =~= seq![Seq::<char>::empty()]);
        s
    }
}

impl TheTextEditState {
    /// The rows, as sequences of characters.
    pub open spec fn text(&self) -> Seq<Seq<char>> {
        strings_view(self.rows@)
    }

    /// Number of glyphs of row `row_number`.
    pub fn glyphs_in_row(&self, row_number: usize) -> (n: usize)
        requires
            row_number < self.rows.len(),
        ensures
            n == glyph_count(self.text()[row_number as int]),
            well_segmented(self.text()[row_number as int]),
    {
        glyph_count_of(self.rows[row_number].as_str())
    }

    pub fn row_count(&self) -> (n: usize)
        ensures
            n == self.rows.len(),
    {
        self.rows.len()
    }

    pub fn is_last_row(&self, row_number: usize) -> (b: bool)
        requires
            self.rows.len() > 0,
        ensures
            b == (row_number == self.rows.len() - 1),
    {
        row_number == self.row_count() - 1
    }

    /// Length of a row in cursor positions, its linebreak included.
    pub fn row_len(&self, row_number: usize) -> (n: usize)
        requires
            row_number < self.rows.len(),
            text_fits(self.text()),
        ensures
            n == row_len(self.text(), row_number as int),
    {
        proof {
            lemma_row_start_mono(self.text(), row_number as int + 1, self.rows.len() as int);
        }
        let len = self.glyphs_in_row(row_number);
        if self.is_last_row(row_number) {
            len
        } else {
            len + 1
        }
    }

    /// Cursor index at which a row starts.
    pub fn find_start_index_of_row(&self, row_number: usize) -> (index: usize)
        requires
            row_number <= self.rows.len(),
            text_fits(self.text()),
        ensures
            index == row_start(self.text(), row_number as int),
    {
        let mut index: usize = 0;
        let mut i: usize = 0;
        while i < row_number
            invariant
                i <= row_number <= self.rows.len(),
                text_fits(self.text()),
                index == row_start(self.text(), i as int),
            decreases row_number - i,
        {
            proof {
                lemma_row_start_mono(self.text(), i + 1, self.rows.len() as int);
            }
            index += self.row_len(i);
            i += 1;
        }
        index
    }

    /// Range of a row in cursor indices, its linebreak included.
    pub fn find_range_of_row(&self, row_number: usize) -> (range: (usize, usize))
        requires
            row_number < self.rows.len(),
            text_fits(self.text()),
        ensures
            range.0 == row_start(self.text(), row_number as int),
            range.1 == row_end(self.text(), row_number as int),
    {
        proof {
            lemma_row_start_mono(self.text(), row_number + 1, self.rows.len() as int);
        }
        let start = self.find_start_index_of_row(row_number);
        let end = start + self.row_len(row_number);
        (start, end)
    }

    /// Cursor index of the cursor.
    pub fn find_cursor_index(&self) -> (index: usize)
        requires
            self.cursor.row <= self.rows.len(),
            text_fits(self.text()),
            row_start(self.text(), self.cursor.row as int) + self.cursor.column <= usize::MAX,
        ensures
            index == row_start(self.text(), self.cursor.row as int) + self.cursor.column,
    {
        self.find_start_index_of_row(self.cursor.row) + self.cursor.column
    }

    /// The row that holds a cursor index; the last row for an index at or past the end.
    pub fn find_row_number_of_index(&self, index: usize) -> (r: usize)
        requires
            self.rows.len() > 0,
            text_fits(self.text()),
        ensures
            is_row_of_index(self.text(), index as int, r as int),
    {
        let ghost rows = self.text();
        let mut left: usize = 0;
        let mut right: usize = self.row_count();
        while left < right
            invariant
                rows == self.text(),
                rows.len() == self.rows.len(),
                rows.len() > 0,
                text_fits(rows),
                left <= right <= rows.len(),
                forall|r: int| 0 <= r < left ==> #[trigger] row_end(rows, r) <= index,
                forall|r: int| right <= r < rows.len() ==> index < #[trigger] row_start(rows, r),
            decreases right - left,
        {
            let row_number = left + (right - left) / 2;
            let (row_start_index, row_end_index) = self.find_range_of_row(row_number);
            if index < row_start_index {
                assert forall|r: int| row_number <= r < rows.len() implies index < #[trigger] row_start(rows, r) by {
                    lemma_row_start_mono(rows, row_number as int, r);
                }
                right = row_number;
            } else if index >= row_end_index {
                assert forall|r: int| 0 <= r < row_number + 1 implies #[trigger] row_end(rows, r) <= index by {
                    if r < row_number {
                        lemma_row_start_mono(rows, r, row_number as int);
                    }
                }
                left = row_number + 1;
            } else {
                return row_number;
            }
        }
        proof {
            if right < rows.len() {
                if right == 0 {
                    assert(index < row_start(rows, 0));
                } else {
                    assert(row_end(rows, right - 1) <= index);
                    assert(index < row_start(rows, right as int));
                }
            }
            assert(row_end(rows, rows.len() - 1) <= index);
        }
        self.row_count() - 1
    }

    /// Row and glyph column of a cursor index.
    pub fn find_row_col_of_index(&self, index: usize) -> (rc: (usize, usize))
        requires
            self.rows.len() > 0,
            text_fits(self.text()),
        ensures
            is_row_of_index(self.text(), index as int, rc.0 as int),
            rc.1 == index - row_start(self.text(), rc.0 as int),
    {
        let row = self.find_row_number_of_index(index);
        let row_start_index = self.find_start_index_of_row(row);
        let col = index - row_start_index;
        (row, col)
    }

    pub fn is_empty(&self) -> (b: bool)
        ensures
            b == (self.rows.len() == 0 || (self.rows.len() == 1 && self.text()[0].len() == 0)),
    {
        self.rows.len() == 0 || (self.rows.len() == 1 && self.rows[0].as_str().is_empty())
    }

    pub fn select(&mut self, start: usize, end: usize)
        ensures
            final(self).selection.start == start,
            final(self).selection.end == end,
            final(self).rows == old(self).rows,
            final(self).cursor == old(self).cursor,
            final(self).auto_bracket_completion == old(self).auto_bracket_completion,
            final(self).auto_indent == old(self).auto_indent,
            final(self).tab_spaces == old(self).tab_spaces,
    {
        self.selection.start = start;
        self.selection.end = end;
    }

    /// Sets the selection to the whole text.
    pub fn select_all(&mut self)
        requires
            text_fits(old(self).text()),
        ensures
            final(self).selection.start == 0,
            final(self).selection.end == text_len(old(self).text()),
            final(self).rows == old(self).rows,
            final(self).cursor == old(self).cursor,
            final(self).same_options(old(self)),
    {
        let mut end: usize = 0;
        let mut i: usize = 0;
        while i < self.rows.len()
            invariant
                i <= self.rows.len(),
                text_fits(self.text()),
                end == row_start(self.text(), i as int),
            decreases self.rows.len() - i,
        {
            proof {
                lemma_row_start_mono(self.text(), i + 1, self.rows.len() as int);
            }
            end += self.row_len(i);
            i += 1;
        }
        self.selection.start = 0;
        self.selection.end = end;
    }

    /// Selects the row of the cursor, its linebreak included.
    pub fn select_row(&mut self)
        requires
            old(self).cursor.row < old(self).rows.len(),
            text_fits(old(self).text()),
        ensures
            final(self).selection.start == row_start(old(self).text(), old(self).cursor.row as int),
            final(self).selection.end == row_end(old(self).text(), old(self).cursor.row as int),
            final(self).rows == old(self).rows,
            final(self).cursor == old(self).cursor,
            final(self).same_options(old(self)),
    {
        let (start, end) = self.find_range_of_row(self.cursor.row);
        self.select(start, end);
    }

    pub fn set_cursor(&mut self, cursor: TheCursor)
        ensures
            final(self).cursor == cursor,
            final(self).rows == old(self).rows,
            final(self).selection == old(self).selection,
            final(self).same_options(old(self)),
    {
        self.cursor = cursor;
    }

    pub fn reset_cursor(&mut self)
        ensures
            final(self).cursor.row == 0 && final(self).cursor.column == 0,
            final(self).rows == old(self).rows,
            final(self).selection == old(self).selection,
            final(self).same_options(old(self)),
    {
        self.cursor.reset();
    }

    pub fn reset_selection(&mut self)
        ensures
            final(self).selection.start == 0 && final(self).selection.end == 0,
            final(self).rows == old(self).rows,
            final(self).cursor == old(self).cursor,
            final(self).same_options(old(self)),
    {
        self.selection.reset();
    }

    /// Empties the text: one empty row, cursor and selection at zero.
    pub fn reset(&mut self)
        ensures
            final(self).text() == seq![Seq::<char>::empty()],
            final(self).cursor.row == 0 && final(self).cursor.column == 0,
            final(self).selection.start == 0 && final(self).selection.end == 0,
            final(self).same_options(old(self)),
    {
        let mut rows: Vec<String> = Vec::new();
        rows.push(String::new());
        self.rows = rows;
        self.reset_cursor();
        self.reset_selection();
        assert(self.text() =~= seq![Seq::<char>::empty()]);
    }

    /// The three options are the same in both states.
    pub open spec fn same_options(&self, other: &Self) -> bool {
        &&& self.auto_bracket_completion == other.auto_bracket_completion
        &&& self.auto_indent == other.auto_indent
        &&& self.tab_spaces == other.tab_spaces
    }

    /// Moves the cursor one row down, keeping its column where the row allows.
    pub fn move_cursor_down(&mut self) -> (moved: bool)
        requires
            old(self).cursor.row < old(self).rows.len(),
        ensures
            moved == (old(self).cursor.row < old(self).rows.len() - 1),
            moved ==> final(self).cursor.row == old(self).cursor.row + 1,
            moved ==> final(self).cursor.column == min_nat(
                old(self).cursor.column as nat,
                glyph_count(old(self).text()[old(self).cursor.row + 1]),
            ),
            !moved ==> final(self).cursor == old(self).cursor,
            final(self).rows == old(self).rows,
            final(self).selection == old(self).selection,
            final(self).same_options(old(self)),
    {
        if self.is_last_row(self.cursor.row) {
            return false;
        }
        self.cursor.row += 1;
        let n = self.glyphs_in_row(self.cursor.row);
        self.cursor.column = if self.cursor.column < n { self.cursor.column } else { n };
        true
    }

    /// Moves the cursor one row up, keeping its column where the row allows.
    pub fn move_cursor_up(&mut self) -> (moved: bool)
        requires
            old(self).cursor.row <= old(self).rows.len(),
        ensures
            moved == (old(self).cursor.row > 0),
            moved ==> final(self).cursor.row == old(self).cursor.row - 1,
            moved ==> final(self).cursor.column == min_nat(
                old(self).cursor.column as nat,
                glyph_count(old(self).text()[old(self).cursor.row - 1]),
            ),
            !moved ==> final(self).cursor == old(self).cursor,
            final(self).rows == old(self).rows,
            final(self).selection == old(self).selection,
            final(self).same_options(old(self)),
    {
        if self.cursor.row == 0 {
            return false;
        }
        self.cursor.row -= 1;
        let n = self.glyphs_in_row(self.cursor.row);
        self.cursor.column = if self.cursor.column < n { self.cursor.column } else { n };
        true
    }

    /// Moves the cursor one position back, to the end of the previous row from a row's start.
    pub fn move_cursor_left(&mut self) -> (moved: bool)
        requires
            old(self).cursor.column == 0 && old(self).cursor.row > 0 ==> old(self).cursor.row
                <= old(self).rows.len(),
        ensures
            moved == !(old(self).cursor.row == 0 && old(self).cursor.column == 0),
            moved && old(self).cursor.column == 0 ==> final(self).cursor.row == old(self).cursor.row - 1
                && final(self).cursor.column == glyph_count(old(self).text()[old(self).cursor.row - 1]),
            moved && old(self).cursor.column > 0 ==> final(self).cursor.row == old(self).cursor.row
                && final(self).cursor.column == old(self).cursor.column - 1,
            !moved ==> final(self).cursor == old(self).cursor,
            final(self).rows == old(self).rows,
            final(self).selection == old(self).selection,
            final(self).same_options(old(self)),
    {
        if self.cursor.is_zero() {
            return false;
        }
        if self.cursor.column == 0 {
            self.cursor.row -= 1;
            self.cursor.column = self.glyphs_in_row(self.cursor.row);
        } else {
            self.cursor.column -= 1;
        }
        true
    }

    /// Moves the cursor one position forward, to the start of the next row from a row's end.
    pub fn move_cursor_right(&mut self) -> (moved: bool)
        requires
            old(self).cursor.row < old(self).rows.len(),
            old(self).cursor.column != glyph_count(old(self).text()[old(self).cursor.row as int])
                ==> old(self).cursor.column < usize::MAX,
        ensures
            ({
                let n = glyph_count(old(self).text()[old(self).cursor.row as int]);
                let last = old(self).cursor.row == old(self).rows.len() - 1;
                &&& moved == !(last && old(self).cursor.column == n)
                &&& moved && old(self).cursor.column == n ==> final(self).cursor.row
                    == old(self).cursor.row + 1 && final(self).cursor.column == 0
                &&& moved && old(self).cursor.column != n ==> final(self).cursor.row
                    == old(self).cursor.row && final(self).cursor.column == old(self).cursor.column + 1
            }),
            !moved ==> final(self).cursor == old(self).cursor,
            final(self).rows == old(self).rows,
            final(self).selection == old(self).selection,
            final(self).same_options(old(self)),
    {
        let n = self.glyphs_in_row(self.cursor.row);
        if self.is_last_row(self.cursor.row) && self.cursor.column == n {
            return false;
        }
        if self.cursor.column == n {
            self.cursor.row += 1;
            self.cursor.column = 0;
        } else {
            self.cursor.column += 1;
        }
        true
    }

    /// Moves the cursor to the end of its row.
    pub fn move_cursor_to_line_end(&mut self) -> (moved: bool)
        requires
            old(self).cursor.row < old(self).rows.len(),
        ensures
            moved == (old(self).cursor.column != glyph_count(
                old(self).text()[old(self).cursor.row as int],
            )),
            final(self).cursor.row == old(self).cursor.row,
            final(self).cursor.column == glyph_count(old(self).text()[old(self).cursor.row as int]),
            final(self).rows == old(self).rows,
            final(self).selection == old(self).selection,
            final(self).same_options(old(self)),
    {
        let n = self.glyphs_in_row(self.cursor.row);
        if self.cursor.column == n {
            return false;
        }
        self.cursor.column = n;
        true
    }

    /// Moves the cursor to the start of its row.
    pub fn move_cursor_to_line_start(&mut self) -> (moved: bool)
        ensures
            moved == (old(self).cursor.column != 0),
            final(self).cursor.row == old(self).cursor.row,
            final(self).cursor.column == 0,
            final(self).rows == old(self).rows,
            final(self).selection == old(self).selection,
            final(self).same_options(old(self)),
    {
        if self.cursor.column == 0 {
            return false;
        }
        self.cursor.column = 0;
        true
    }

    /// Range of the selected cursor positions within a row, if any.
    pub fn find_selected_range_of_row(&self, row_number: usize) -> (range: Option<(usize, usize)>)
        requires
            row_number < self.rows.len(),
            text_fits(self.text()),
        ensures
            range == selected_range_of_row(self.text(), self.selection, row_number as int),
    {
        if self.selection.is_none() {
            return None;
        }
        let (start, end) = self.find_range_of_row(row_number);
        if !self.selection.intersects(start, end) {
            return None;
        }
        // Select the linebreak only
        if self.selection.start == end - 1 {
            return Some((end - 1, end));
        }
        let left = if self.selection.start > start { self.selection.start } else { start };
        // An empty row, or the last row, keeps its end; other rows leave out their linebreak
        let bound = if start + 1 == end || self.is_last_row(row_number) { end } else { end - 1 };
        let right = if self.selection.end < bound { self.selection.end } else { bound };
        if left == right {
            None
        } else {
            Some((left, right))
        }
    }

    /// Whether the whole row except its linebreak is selected.
    pub fn is_row_all_selected(&self, row_number: usize) -> (b: bool)
        requires
            row_number < self.rows.len(),
            text_fits(self.text()),
        ensures
            b == match selected_range_of_row(self.text(), self.selection, row_number as int) {
                Some(r) => row_start(self.text(), row_number as int) == r.0 && row_end(
                    self.text(),
                    row_number as int,
                ) == r.1 + 1,
                None => false,
            },
    {
        match self.find_selected_range_of_row(row_number) {
            Some(selected_range) => {
                let range = self.find_range_of_row(row_number);
                range.0 == selected_range.0 && range.1 >= 1 && range.1 - 1 == selected_range.1
            },
            None => false,
        }
    }

    /// Number of spaces that start a row, when it holds something else.
    pub fn find_beginning_spaces_of_row(&self, row_number: usize) -> (n: Option<usize>)
        requires
            row_number < self.rows.len(),
        ensures
            match n {
                Some(i) => i < self.text()[row_number as int].len() && self.text()[row_number as int][i as int] != ' '
                    && forall|j: int| 0 <= j < i ==> self.text()[row_number as int][j] == ' ',
                None => forall|j: int| 0 <= j < self.text()[row_number as int].len() ==> self.text()[row_number as int][j] == ' ',
            },
    {
        let v = chars_of(self.rows[row_number].as_str());
        let mut i: usize = 0;
        while i < v.len()
            invariant
                i <= v.len(),
                v@ == self.text()[row_number as int],
                forall|j: int| 0 <= j < i ==> v@[j] == ' ',
            decreases v.len() - i,
        {
            if v[i] != ' ' {
                return Some(i);
            }
            i += 1;
        }
        None
    }

    /// Replaces the rows by the pieces of `text` between its linebreaks.
    pub fn set_text(&mut self, text: String)
        ensures
            final(self).text() == split_lines(text@),
            final(self).cursor == old(self).cursor,
            final(self).selection == old(self).selection,
            final(self).same_options(old(self)),
    {
        let v = chars_of(text.as_str());
        let mut rows: Vec<String> = Vec::new();
        let mut cur: Vec<char> = Vec::new();
        let mut i: usize = 0;
        while i < v.len()
            invariant
                i <= v.len(),
                v@ == text@,
                strings_view(rows@).push(cur@) == split_lines(v@.take(i as int)),
            decreases v.len() - i,
        {
            let ghost prev = strings_view(rows@).push(cur@);
            proof {
                assert(v@.take(i + 1 as int).drop_last() =~= v@.take(i as int));
                assert(v@.take(i + 1 as int).last() == v@[i as int]);
            }
            if v[i] == '\n' {
                let s = string_of(&cur);
                rows.push(s);
                cur = Vec::new();
                assert(strings_view(rows@).push(cur@) =~= prev.push(Seq::empty()));
            } else {
                cur.push(v[i]);
                assert(strings_view(rows@).push(cur@) =~= prev.update(prev.len() - 1, prev.last().push(v@[i as int])));
            }
            i += 1;
        }
        let s = string_of(&cur);
        rows.push(s);
        assert(v@.take(v@.len() as int) =~= v@);
        assert(strings_view(rows@) =~= split_lines(text@));
        self.rows = rows;
    }

    /// The rows joined by linebreaks.
    pub fn to_text(&self) -> (text: String)
        ensures
            text@ == join_rows(self.text()),
    {
        let ghost rows = self.text();
        let mut acc: Vec<char> = Vec::new();
        let mut i: usize = 0;
        while i < self.rows.len()
            invariant
                i <= self.rows.len(),
                rows == self.text(),
                acc@ == join_rows(rows.take(i as int)),
            decreases self.rows.len() - i,
        {
            proof {
                assert(rows.take(i + 1 as int).drop_last() =~= rows.take(i as int));
                assert(rows.take(i + 1 as int).last() == rows[i as int]);
                if i == 0 {
                    assert(rows.take(1) =~= seq![rows[0]]);
                }
            }
            if i > 0 {
                acc.push('\n');
            }
            let mut row = chars_of(self.rows[i].as_str());
            acc.append(&mut row);
            i += 1;
        }
        assert(rows.take(self.rows.len() as int) =~= rows);
        string_of(&acc)
    }
}

impl View for TheTextEditState {
    type V = TextView;

    open spec fn view(&self) -> TextView {
        TextView {
            rows: self.text(),
            cursor: self.cursor,
            selection: self.selection,
            auto_bracket_completion: self.auto_bracket_completion,
            auto_indent: self.auto_indent,
            tab_spaces: self.tab_spaces,
        }
    }
}

impl TheTextEditState {
    /// Replaces the characters of a row.
    fn set_row(&mut self, row_number: usize, v: &Vec<char>)
        requires
            row_number < old(self).rows.len(),
        ensures
            final(self)@ == (TextView { rows: old(self)@.rows.update(row_number as int, v@), ..old(self)@ }),
            final(self).rows.len() == old(self).rows.len(),
    {
        let s = string_of(v);
        self.rows.set(row_number, s);
        assert(self.text() =~= old(self).text().update(row_number as int, v@));
    }

    /// Removes the glyphs between two columns of a row; false when that range is empty.
    pub fn delete_range_of_row(&mut self, row_number: usize, start: usize, end: usize) -> (deleted: bool)
        requires
            row_number < old(self).rows.len(),
        ensures
            ({
                let s = old(self)@.rows[row_number as int];
                let (left, right) = crate::textops::deletion_bounds(s, start as int, end as int);
                &&& deleted == (left != right)
                &&& final(self)@ == (TextView {
                    rows: old(self)@.rows.update(row_number as int, delete_glyphs(s, start as int, end as int)),
                    ..old(self)@
                })
            }),
    {
        let n = self.glyphs_in_row(row_number);
        let left = if start < end { start } else { end };
        let hi = if start < end { end } else { start };
        let right = if hi < n { hi } else { n };
        if left == right {
            assert(self.text().update(row_number as int, self.text()[row_number as int]) =~= self.text());
            return false;
        }
        let ol = glyph_char_offset(self.rows[row_number].as_str(), left);
        let or = glyph_char_offset(self.rows[row_number].as_str(), right);
        let v = chars_of(self.rows[row_number].as_str());
        let a = if ol < or { ol } else { or };
        let empty: Vec<char> = Vec::new();
        let w = splice_chars(&v, a, or, &empty);
        assert(w@ =~= delete_glyphs(self.text()[row_number as int], start as int, end as int));
        self.set_row(row_number, &w);
        true
    }
}

impl TheTextEditState {
    /// Joins the part of the selection's last row that follows the selection to its first row,
    /// and removes the rows in between (see `merged_rows`).
    fn merge_rows_of_selection(&mut self, start_row: usize, end_row: usize, row_end_index: usize)
        requires
            start_row < end_row < old(self).rows.len(),
            text_fits(old(self).text()),
            start_row == row_of_index(old(self).text(), old(self).selection.start as int),
            end_row == row_of_index(old(self).text(), old(self).selection.end as int),
            row_end_index == row_end(old(self).text(), start_row as int),
            row_start(old(self).text(), end_row as int) <= old(self).selection.end,
        ensures
            final(self).text() == merged_rows(old(self).text(), old(self).selection),
            final(self).cursor == old(self).cursor,
            final(self).selection == old(self).selection,
            final(self).same_options(old(self)),
    {
        let ghost rows0 = self.text();
        let sel = self.selection;
        let k = sel.end - self.find_start_index_of_row(end_row);
        self.delete_range_of_row(end_row, 0, k);
        assert(self.rows@.len() == self.text().len());
        let ghost rows1 = self.text();
        let tail = self.rows.remove(end_row);
        assert(self.text() =~= rows1.remove(end_row as int));
        assert(tail@ == rows1[end_row as int]);
        assert(rows1 == rows0.update(end_row as int, delete_glyphs(rows0[end_row as int], 0, k as int)));
        assert(tail@ == delete_glyphs(rows0[end_row as int], 0, k as int));
        assert(self.text()[start_row as int] == rows1[start_row as int]);
        let mut head = chars_of(self.rows[start_row].as_str());
        assert(head@ == rows0[start_row as int]);
        if sel.end == row_end_index && sel.end - 1 == sel.start {
            head.push('\n');
        }
        let ghost head0 = head@;
        let mut tail_chars = chars_of(tail.as_str());
        head.append(&mut tail_chars);
        assert(head@ == head0 + tail@);
        self.set_row(start_row, &head);
        // Remove the rows in between
        let mut i: usize = end_row;
        while i > start_row + 1
            invariant
                start_row + 1 <= i <= end_row,
                end_row < rows0.len(),
                self.rows@.len() == self.text().len(),
                self.text() == rows0.take(start_row as int) + seq![head@] + rows0.subrange(start_row + 1, i as int) + rows0.skip(end_row + 1),
                self.cursor == old(self).cursor,
                self.selection == old(self).selection,
                self.same_options(old(self)),
            decreases i,
        {
            i -= 1;
            let ghost before = self.text();
            assert(before.len() == start_row + 1 + (i - start_row - 1) + (rows0.len() - end_row - 1) + 1);
            self.rows.remove(i);
            assert(self.text() =~= before.remove(i as int));
            assert(self.text() =~= rows0.take(start_row as int) + seq![head@] + rows0.subrange(start_row + 1, i as int) + rows0.skip(end_row + 1));
        }
        assert(rows0.subrange(start_row + 1, start_row + 1) =~= Seq::<Seq<char>>::empty());
        assert(self.text() =~= merged_rows(rows0, sel));
    }

    /// Deletes the selected text (see `after_delete_selection`); false when nothing is selected.
    pub fn delete_text_by_selection(&mut self) -> (deleted: bool)
        requires
            selection_deletable(old(self)@),
        ensures
            deleted == (old(self).selection.start != old(self).selection.end),
            final(self)@ == after_delete_selection(old(self)@),
            deleted ==> final(self).rows.len() > 0,
    {
        if self.selection.is_none() {
            return false;
        }
        let ghost v0 = self@;
        let ghost rows0 = self.text();
        let sel = self.selection;
        let cursor_index = self.find_cursor_index();
        let start_row = self.find_row_number_of_index(sel.start);
        let end_row = self.find_row_number_of_index(sel.end);
        proof {
            lemma_row_of_index(rows0, sel.start as int, start_row as int);
            lemma_row_of_index(rows0, sel.end as int, end_row as int);
            crate::model::lemma_row_of_index_mono(rows0, sel.start as int, sel.end as int, start_row as int, end_row as int);
            lemma_row_start_mono(rows0, start_row as int + 1, rows0.len() as int);
        }
        // Selection range of the first row
        let (row_start_index, row_end_index) = self.find_range_of_row(start_row);
        let (start, end) = match self.find_selected_range_of_row(start_row) {
            Some(p) => p,
            None => (row_end_index, row_end_index + 1),
        };
        assert(start as int == first_row_range(rows0, sel).0);
        assert(end as int == first_row_range(rows0, sel).1);
        assert(start >= row_start_index) by {
            lemma_row_start_mono(rows0, start_row as int, rows0.len() as int);
        }
        if start_row != end_row {
            self.merge_rows_of_selection(start_row, end_row, row_end_index);
        } else {
            assert(self.text() == merged_rows(rows0, sel));
        }
        // Handle the first row
        let left = start - row_start_index;
        let right = end - row_start_index;
        self.delete_range_of_row(start_row, left, right);
        assert(self.text() == rows_without_selection(rows0, sel));
        // Place the cursor
        if cursor_index >= sel.start {
            if cursor_index < sel.end {
                self.cursor.row = start_row;
                self.cursor.column = left;
            } else {
                let cursor_index = cursor_index - (sel.end - sel.start);
                let (row, col) = self.find_row_col_of_index(cursor_index);
                proof {
                    lemma_row_of_index(self.text(), cursor_index as int, row as int);
                }
                self.cursor.row = row;
                self.cursor.column = col;
            }
        }
        self.reset_selection();
        true
    }
}

impl TheTextEditState {
    /// Byte offset just after the last non-space character before byte offset `column` of a
    /// row, if there is one.
    fn last_non_space_byte_end(&self, row_number: usize, column: usize) -> (b: Option<usize>)
        requires
            row_number < self.rows.len(),
            is_byte_boundary(self.text()[row_number as int], column as int),
        ensures
            match b {
                Some(x) => last_non_space_end(self.text()[row_number as int], chars_before_byte(self.text()[row_number as int], column as int)) == Some(x as int),
                None => last_non_space_end(self.text()[row_number as int], chars_before_byte(self.text()[row_number as int], column as int)) is None,
            },
    {
        let ghost s = self.text()[row_number as int];
        let v = chars_of(self.rows[row_number].as_str());
        let k = match char_index_of_byte(&v, column) {
            Some(k) => k,
            None => {
                assert(false);
                0
            },
        };
        proof {
            lemma_chars_before_byte(s, k as int);
            assert(byte_len(s.take(k as int)) == column);
            assert(chars_before_byte(s, column as int) == k);
        }
        let mut j: usize = k;
        while j > 0
            invariant
                j <= k <= v@.len(),
                v@ == s,
                byte_len(s.take(k as int)) == column,
                chars_before_byte(s, column as int) == k,
                s == self.text()[row_number as int],
                last_non_space_end(s, j as int) == last_non_space_end(s, k as int),
            decreases j,
        {
            if v[j - 1] != ' ' {
                proof {
                    lemma_byte_len_take_mono(s, j - 1, k as int);
                }
                let b = byte_len_of_prefix(&v, j - 1);
                assert(last_non_space_end(s, j as int) == Some(byte_len(s.take(j - 1)) + 1int));
                return Some(b + 1);
            }
            assert(last_non_space_end(s, j as int) == last_non_space_end(s, j - 1));
            j -= 1;
        }
        None
    }

    /// Deletes the glyph before the cursor (a run of spaces back to the last non-space
    /// character or the previous tab stop, after a space), or joins the row to the previous one
    /// at a row's start; see `after_delete_char`.
    pub fn delete_char_by_cursor(&mut self) -> (deleted: bool)
        requires
            char_deletable(old(self)@),
        ensures
            (final(self)@, deleted) == after_delete_char(old(self)@),
    {
        let ghost v0 = self@;
        if self.cursor.is_zero() {
            return false;
        }
        let row = self.cursor.row;
        let column = self.cursor.column;
        // Delete the linebreak and join the row to the previous one
        if column == 0 {
            let n = self.glyphs_in_row(row - 1);
            self.cursor.column = n;
            let text = self.rows.remove(row);
            assert(self.text() =~= v0.rows.remove(row as int));
            let mut head = chars_of(self.rows[row - 1].as_str());
            let mut tail = chars_of(text.as_str());
            head.append(&mut tail);
            self.set_row(row - 1, &head);
            assert(self.text() =~= v0.rows.remove(row as int).update(row - 1, v0.rows[row - 1] + v0.rows[row as int]));
            self.move_cursor_up();
            return true;
        }
        let v = chars_of(self.rows[row].as_str());
        let char_to_be_deleted = v[column - 1];
        // After a space, go back to the last non-space character or to the previous tab stop
        if char_to_be_deleted == ' ' {
            let deletion_start = match self.last_non_space_byte_end(row, column) {
                Some(b) => b,
                None => {
                    let t = self.tab_spaces;
                    let c1 = column - 1;
                    let q = c1 / t;
                    assert(q * t <= c1) by (nonlinear_arith)
                        requires t > 0, q == c1 / t;
                    q * t
                },
            };
            assert(deletion_start == space_deletion_start(v0.rows[row as int], column as int, v0.tab_spaces as int));
            if self.delete_range_of_row(row, deletion_start, column) {
                self.cursor.column = deletion_start;
                return true;
            }
            assert(self.text() =~= v0.rows);
        }
        // Delete one glyph
        if self.delete_range_of_row(row, column - 1, column) {
            self.move_cursor_left();
            return true;
        }
        assert(self.text() =~= v0.rows);
        false
    }
}

impl TheTextEditState {
    /// Number of spaces a new row starts with.
    fn new_row_indent(&self) -> (n: usize)
        requires
            self.auto_indent ==> self.cursor.row < self.rows.len(),
        ensures
            n == indent_of_new_row(self@),
    {
        if self.auto_indent {
            // Match the spaces that start the current row
            match self.find_beginning_spaces_of_row(self.cursor.row) {
                Some(i) => {
                    proof {
                        let s = self.text()[self.cursor.row as int];
                        let j = choose|j: int| 0 <= j < s.len() && s[j] != ' ' && forall|k: int| 0 <= k < j ==> s[k] == ' ';
                        assert(0 <= i < s.len() && s[i as int] != ' ');
                        if j < i {
                            assert(s[j] == ' ');
                        } else if i < j {
                            assert(s[i as int] == ' ');
                        }
                        assert(first_non_space(s) == Some(i as int));
                    }
                    i
                },
                None => self.cursor.column,
            }
        } else {
            0
        }
    }

    /// Breaks the row at the cursor (see `after_insert_row_here`).
    fn insert_row_here(&mut self)
        requires
            row_insertable_here(old(self)@),
        ensures
            final(self)@ == after_insert_row_here(old(self)@),
    {
        let ghost v0 = self@;
        let beginning_spaces = self.new_row_indent();
        let new_row_start = spaces_vec(beginning_spaces);
        let row = self.cursor.row;
        let column = self.cursor.column;
        let _len = self.rows.len();
        let ghost n = beginning_spaces as nat;
        if column == 0 {
            // Insert at the current row
            self.rows.insert(row, string_of(&new_row_start));
            assert(self.text() =~= rows_with_new_row(v0.rows, row as int, column as int, n));
        } else if column >= self.glyphs_in_row(row) {
            // Insert at the next row
            self.rows.insert(row + 1, string_of(&new_row_start));
            assert(self.text() =~= rows_with_new_row(v0.rows, row as int, column as int, n));
        } else {
            // Split the current row
            let off = glyph_char_offset(self.rows[row].as_str(), column);
            let v = chars_of(self.rows[row].as_str());
            let empty: Vec<char> = Vec::new();
            let head = splice_chars(&v, off, v.len(), &empty);
            let remaining = splice_chars(&v, 0, off, &empty);
            let mut new_text = new_row_start;
            let mut rest = remaining;
            new_text.append(&mut rest);
            self.set_row(row, &head);
            self.rows.insert(row + 1, string_of(&new_text));
            assert(head@ =~= v0.rows[row as int].take(off as int));
            assert(new_text@ =~= spaces(n) + v0.rows[row as int].skip(off as int));
            assert(self.text() =~= rows_with_new_row(v0.rows, row as int, column as int, n));
        }
        self.cursor.column = beginning_spaces;
        self.move_cursor_down();
    }

    /// Breaks the row at the cursor, once the selection is deleted (see `after_insert_row`).
    pub fn insert_row(&mut self)
        requires
            selection_deletable(old(self)@),
            row_insertable_here(crate::textops::after_delete_selection(old(self)@)),
        ensures
            final(self)@ == after_insert_row(old(self)@),
    {
        if !self.selection.is_none() {
            self.delete_text_by_selection();
        }
        self.insert_row_here();
    }

    /// The delete key: deletes the selection, or else the glyph before the cursor; a text
    /// left without rows gets an empty one (see `after_delete_text`).
    pub fn delete_text(&mut self) -> (deleted: bool)
        requires
            selection_deletable(old(self)@),
            old(self).selection.start == old(self).selection.end ==> char_deletable(old(self)@),
            old(self).rows.len() == 0 ==> !old(self).auto_indent,
        ensures
            (final(self)@, deleted) == after_delete_text(old(self)@),
    {
        let deleted = if !self.selection.is_none() {
            self.delete_text_by_selection()
        } else {
            self.delete_char_by_cursor()
        };
        if self.rows.len() == 0 {
            self.insert_row();
        }
        deleted
    }
}

impl TheTextEditState {
    /// Inserts characters into a row at a glyph column.
    fn insert_at_glyph_column(&mut self, row_number: usize, column: usize, t: &Vec<char>)
        requires
            row_number < old(self).rows.len(),
        ensures
            final(self)@ == (TextView {
                rows: insert_at_glyph(old(self)@.rows, row_number as int, column as int, t@),
                ..old(self)@
            }),
            final(self).rows.len() == old(self).rows.len(),
    {
        let off = glyph_char_offset(self.rows[row_number].as_str(), column);
        let v = chars_of(self.rows[row_number].as_str());
        let w = splice_chars(&v, off, off, t);
        self.set_row(row_number, &w);
    }

    /// Puts a pair of brackets at the cursor, or brackets around the selection (see
    /// `after_insert_brackets`).
    pub fn insert_brackets(&mut self, left: char)
        requires
            is_opening_bracket(left),
            brackets_insertable(old(self)@),
            old(self).selection.start != old(self).selection.end ==> crate::model::text_fits(old(self).text()),
        ensures
            final(self)@ == after_insert_brackets(old(self)@, left),
    {
        let right = if left == '(' {
            ')'
        } else if left == '{' {
            '}'
        } else if left == '[' {
            ']'
        } else {
            '>'
        };
        if self.selection.is_none() {
            let mut pair: Vec<char> = Vec::new();
            pair.push(left);
            pair.push(right);
            assert(pair@ =~= seq![left, right]);
            self.insert_at_glyph_column(self.cursor.row, self.cursor.column, &pair);
            self.cursor.column += 1;
        } else {
            let ghost v0 = self@;
            let sel = self.selection;
            let first = self.bracket_place_of(false);
            let second = self.bracket_place_of(true);
            if first.0 == self.cursor.row {
                self.cursor.column += 1;
            }
            let mut one: Vec<char> = Vec::new();
            one.push(left);
            assert(one@ =~= seq![left]);
            self.insert_at_glyph_column(first.0, first.1, &one);
            let mut other: Vec<char> = Vec::new();
            other.push(right);
            assert(other@ =~= seq![right]);
            self.insert_at_glyph_column(second.0, second.1, &other);
            self.selection.start += 1;
            self.selection.end += 1;
        }
    }

    /// Row and glyph column where a bracket goes around the selection (see `bracket_place`).
    fn bracket_place_of(&self, end: bool) -> (place: (usize, usize))
        requires
            self.rows.len() > 0,
            crate::model::text_fits(self.text()),
            crate::model::text_len(self.text()) + 1 < usize::MAX,
            self.selection.start != self.selection.end,
        ensures
            place.0 as int == bracket_place(self.text(), self.selection, end).0,
            place.1 as int == bracket_place(self.text(), self.selection, end).1,
            place.0 < self.rows.len(),
    {
        let index = if end { self.selection.end } else { self.selection.start };
        let row = self.find_row_number_of_index(index);
        proof {
            lemma_row_of_index(self.text(), index as int, row as int);
            lemma_row_start_mono(self.text(), row as int + 1, self.rows.len() as int);
        }
        let (row_start_index, row_end_index) = self.find_range_of_row(row);
        let (start, end_index) = match self.find_selected_range_of_row(row) {
            Some(p) => p,
            None => (row_end_index, row_end_index + 1),
        };
        if end {
            assert(end_index >= row_start_index);
            (row, end_index - row_start_index + 1)
        } else {
            assert(start >= row_start_index);
            (row, start - row_start_index)
        }
    }

    /// Types a character: a pair of brackets with bracket completion on, else the character
    /// replaces the selection and the cursor moves past it (see `after_insert_char`).
    pub fn insert_char(&mut self, char: char)
        requires
            char_insertable(old(self)@, char),
            old(self).auto_bracket_completion && is_opening_bracket(char) && old(self).selection.start
                != old(self).selection.end ==> crate::model::text_fits(old(self).text()),
        ensures
            final(self)@ == after_insert_char(old(self)@, char),
    {
        if self.auto_bracket_completion && (char == '(' || char == '{' || char == '[' || char == '<') {
            self.insert_brackets(char);
            return;
        }
        if !self.selection.is_none() {
            self.delete_text_by_selection();
        }
        let mut one: Vec<char> = Vec::new();
        one.push(char);
        assert(one@ =~= seq![char]);
        assert(self.text().len() == self.rows@.len());
        self.insert_at_glyph_column(self.cursor.row, self.cursor.column, &one);
        self.move_cursor_right();
    }
}

impl TheTextEditState {
    /// Inserts `text` at the cursor once the selection is deleted, and returns the cursor
    /// indices where it starts and ends (see `after_insert_text`).
    #[verifier::rlimit(40)]
    #[verifier::spinoff_prover]
    pub fn insert_text(&mut self, text: String) -> (range: (usize, usize))
        requires
            selection_deletable(old(self)@),
            text_insertable_here(crate::textops::after_delete_selection(old(self)@), text@),
        ensures
            final(self)@ == after_insert_text(old(self)@, text@),
            range.0 == cursor_index(crate::textops::after_delete_selection(old(self)@)),
            range.1 == range.0 + glyph_count(text@),
    {
        if !self.selection.is_none() {
            self.delete_text_by_selection();
        }
        let ghost v1 = self@;
        assert(self.text().len() == self.rows@.len());
        let start = self.find_cursor_index();
        let glyph_count = glyph_count_of(text.as_str());
        let t = chars_of(text.as_str());
        let lines = split_chars_lines(&t);
        let ghost lv = lines_view(lines@);
        assert(lv.len() == lines@.len());
        let row = self.cursor.row;
        let column = self.cursor.column;
        if lines.len() == 1 {
            self.insert_at_glyph_column(row, column, &t);
            self.cursor.column = column + glyph_count;
            return (start, start + glyph_count);
        }
        let n = lines.len();
        proof {
            crate::model::lemma_split_lines_len(text@);
        }
        let off = glyph_char_offset(self.rows[row].as_str(), column);
        let v = chars_of(self.rows[row].as_str());
        let empty: Vec<char> = Vec::new();
        let head = splice_chars(&v, off, v.len(), &lines[0]);
        let leftover = splice_chars(&v, 0, off, &empty);
        assert(head@ =~= v1.rows[row as int].take(off as int) + lv[0]);
        assert(leftover@ =~= v1.rows[row as int].skip(off as int));
        self.set_row(row, &head);
        let ghost rows_a = self.text();
        assert(rows_a == v1.rows.update(row as int, head@));
        let mut i: usize = 1;
        while i < n - 1
            invariant
                1 <= i <= n - 1,
                n == lines@.len(),
                lv == lines_view(lines@),
                row < v1.rows.len(),
                row + n <= usize::MAX,
                self.rows@.len() == self.text().len(),
                rows_a.len() == v1.rows.len(),
                self.text().len() == v1.rows.len() + i - 1,
                self.text() == rows_a.take(row + 1) + lv.subrange(1, i as int) + rows_a.skip(row + 1),
                self.cursor == v1.cursor,
                self.selection == v1.selection,
                self.auto_bracket_completion == v1.auto_bracket_completion,
                self.auto_indent == v1.auto_indent,
                self.tab_spaces == v1.tab_spaces,
            decreases n - i,
        {
            let ghost before = self.text();
            self.rows.insert(row + i, string_of(&lines[i]));
            assert(self.text() =~= before.insert(row + i, lv[i as int]));
            assert(self.text() =~= rows_a.take(row + 1) + lv.subrange(1, i + 1) + rows_a.skip(row + 1));
            i += 1;
        }
        let mut last = string_of(&lines[n - 1]);
        let last_glyphs = glyph_count_of(last.as_str());
        let mut last_chars = chars_of(last.as_str());
        let mut rest = leftover;
        last_chars.append(&mut rest);
        let ghost before = self.text();
        self.rows.insert(row + n - 1, string_of(&last_chars));
        assert(self.text() =~= before.insert(row + n - 1, lv[n - 1] + v1.rows[row as int].skip(off as int)));
        assert(self.text() =~= v1.rows.take(row as int) + (seq![v1.rows[row as int].take(off as int) + lv[0]] + lv.subrange(1, n - 1) + seq![lv[n - 1] + v1.rows[row as int].skip(off as int)]) + v1.rows.skip(row + 1));
        self.cursor.row = row + n - 1;
        self.cursor.column = last_glyphs;
        (start, start + glyph_count)
    }

    /// Inserts `tab_spaces` spaces at the cursor (see `insert_text`).
    pub fn insert_tab(&mut self) -> (range: (usize, usize))
        requires
            selection_deletable(old(self)@),
            text_insertable_here(crate::textops::after_delete_selection(old(self)@), spaces(old(self).tab_spaces as nat)),
        ensures
            final(self)@ == after_insert_text(old(self)@, spaces(old(self).tab_spaces as nat)),
            range.0 == cursor_index(crate::textops::after_delete_selection(old(self)@)),
            range.1 == range.0 + glyph_count(spaces(old(self).tab_spaces as nat)),
    {
        let v = spaces_vec(self.tab_spaces);
        self.insert_text(string_of(&v))
    }
}

impl TheTextEditState {
    /// Exchanges two rows.
    fn swap_rows(&mut self, i: usize, j: usize)
        requires
            i < old(self).rows.len(),
            j < old(self).rows.len(),
        ensures
            final(self)@ == (TextView {
                rows: old(self)@.rows.update(i as int, old(self)@.rows[j as int]).update(j as int, old(self)@.rows[i as int]),
                ..old(self)@
            }),
            final(self).rows.len() == old(self).rows.len(),
    {
        let a = self.rows[i].clone();
        let b = self.rows[j].clone();
        self.rows.set(i, b);
        self.rows.set(j, a);
        assert(self.text() =~= old(self)@.rows.update(i as int, old(self)@.rows[j as int]).update(j as int, old(self)@.rows[i as int]));
    }

    /// Moves the rows `start..=end` (both included) by `vector` rows; false when they cannot
    /// move (see `after_move_lines`).
    fn move_lines(&mut self, start: usize, end: usize, vector: isize) -> (moved: bool)
        requires
            lines_movable(old(self)@, start as int, end as int, vector as int),
        ensures
            (final(self)@, moved) == after_move_lines(old(self)@, start as int, end as int, vector as int),
    {
        let ghost v0 = self@;
        let len = self.row_count() as isize;
        let e = end as isize + vector;
        let e_abs = if e < 0 { -e } else { e };
        if vector == 0 || (start as isize) + vector < 0 || e_abs >= len {
            return false;
        }
        assert(self.text().len() == self.rows@.len());
        if vector < 0 {
            if !self.selection.is_none() {
                let row_len = self.glyphs_in_row(start - 1) + 1;
                self.selection.start -= row_len;
                self.selection.end -= row_len;
            }
            if start <= end {
                let mut i: usize = start;
                while i <= end
                    invariant
                        1 <= start <= i <= end + 1,
                        end < v0.rows.len(),
                        self.rows@.len() == v0.rows.len(),
                        self.text() == v0.rows.take(start - 1) + v0.rows.subrange(start as int, i as int) + seq![v0.rows[start - 1]] + v0.rows.skip(i as int),
                        self.cursor == v0.cursor,
                        self.same_options(old(self)),
                        self.selection == (if v0.selection.start == v0.selection.end { v0.selection } else {
                            TheSelection { start: (v0.selection.start - (glyph_count(v0.rows[start - 1]) + 1)) as usize, end: (v0.selection.end - (glyph_count(v0.rows[start - 1]) + 1)) as usize }
                        }),
                    decreases end + 1 - i,
                {
                    let ghost before = self.text();
                    self.swap_rows(i, i - 1);
                    assert(self.text() =~= v0.rows.take(start - 1) + v0.rows.subrange(start as int, i + 1) + seq![v0.rows[start - 1]] + v0.rows.skip(i + 1));
                    i += 1;
                }
            }
            self.cursor.row -= 1;
            assert(self.text() =~= rows_moved_up(v0.rows, start as int, end as int));
        } else {
            if !self.selection.is_none() {
                let row_len = self.glyphs_in_row(end + 1) + 1;
                self.selection.start += row_len;
                self.selection.end += row_len;
            }
            if start <= end {
                let mut i: usize = end + 1;
                while i > start
                    invariant
                        start <= i <= end + 1,
                        end + 1 < v0.rows.len(),
                        self.rows@.len() == v0.rows.len(),
                        self.text() == v0.rows.take(i as int) + seq![v0.rows[end + 1]] + v0.rows.subrange(i as int, end + 1) + v0.rows.skip(end + 2),
                        self.cursor == v0.cursor,
                        self.same_options(old(self)),
                        self.selection == (if v0.selection.start == v0.selection.end { v0.selection } else {
                            TheSelection { start: (v0.selection.start + (glyph_count(v0.rows[end + 1]) + 1)) as usize, end: (v0.selection.end + (glyph_count(v0.rows[end + 1]) + 1)) as usize }
                        }),
                    decreases i,
                {
                    i -= 1;
                    self.swap_rows(i, i + 1);
                    assert(self.text() =~= v0.rows.take(i as int) + seq![v0.rows[end + 1]] + v0.rows.subrange(i as int, end + 1) + v0.rows.skip(end + 2));
                }
            }
            self.cursor.row += 1;
            assert(self.text() =~= rows_moved_down(v0.rows, start as int, end as int));
        }
        true
    }

    /// Moves the cursor's row, or the rows of the selection, one row down.
    pub fn move_lines_down(&mut self) -> (moved: bool)
        requires
            old(self).rows.len() > 0,
            text_fits(old(self).text()),
            lines_movable(old(self)@, lines_to_move(old(self)@).0, lines_to_move(old(self)@).1, 1),
        ensures
            (final(self)@, moved) == after_move_lines(old(self)@, lines_to_move(old(self)@).0, lines_to_move(old(self)@).1, 1),
    {
        if self.selection.is_none() {
            self.move_lines(self.cursor.row, self.cursor.row, 1)
        } else {
            let a = self.find_row_number_of_index(self.selection.start);
            let b = self.find_row_number_of_index(self.selection.end);
            proof {
                lemma_row_of_index(self.text(), self.selection.start as int, a as int);
                lemma_row_of_index(self.text(), self.selection.end as int, b as int);
            }
            self.move_lines(a, b, 1)
        }
    }

    /// Moves the cursor's row, or the rows of the selection, one row up.
    pub fn move_lines_up(&mut self) -> (moved: bool)
        requires
            old(self).rows.len() > 0,
            text_fits(old(self).text()),
            lines_movable(old(self)@, lines_to_move(old(self)@).0, lines_to_move(old(self)@).1, -1),
        ensures
            (final(self)@, moved) == after_move_lines(old(self)@, lines_to_move(old(self)@).0, lines_to_move(old(self)@).1, -1),
    {
        if self.selection.is_none() {
            self.move_lines(self.cursor.row, self.cursor.row, -1)
        } else {
            let a = self.find_row_number_of_index(self.selection.start);
            let b = self.find_row_number_of_index(self.selection.end);
            proof {
                lemma_row_of_index(self.text(), self.selection.start as int, a as int);
                lemma_row_of_index(self.text(), self.selection.end as int, b as int);
            }
            self.move_lines(a, b, -1)
        }
    }
}

impl TheTextEditState {
    /// Characters of a row from character `a` up to character `b`.
    fn row_chars(&self, row_number: usize, a: usize, b: usize) -> (r: Vec<char>)
        requires
            row_number < self.rows.len(),
            a <= b <= self.text()[row_number as int].len(),
        ensures
            r@ == self.text()[row_number as int].subrange(a as int, b as int),
    {
        let v = chars_of(self.rows[row_number].as_str());
        let empty: Vec<char> = Vec::new();
        let w = splice_chars(&v, b, v.len(), &empty);
        let r = splice_chars(&w, 0, a, &empty);
        assert(r@ =~= self.text()[row_number as int].subrange(a as int, b as int));
        r
    }

    /// Number of characters of a row before a byte offset that falls between two of them.
    fn chars_before(&self, row_number: usize, b: usize) -> (k: usize)
        requires
            row_number < self.rows.len(),
            is_byte_boundary(self.text()[row_number as int], b as int),
        ensures
            k == chars_before_byte(self.text()[row_number as int], b as int),
            k <= self.text()[row_number as int].len(),
    {
        let v = chars_of(self.rows[row_number].as_str());
        match char_index_of_byte(&v, b) {
            Some(k) => {
                proof {
                    lemma_chars_before_byte(v@, k as int);
                }
                k
            },
            None => {
                assert(false);
                0
            },
        }
    }

    /// Text between two cursor indices; within a row the column is taken as a byte offset
    /// (see `text_between`).
    pub fn get_text(&self, start: usize, end: usize) -> (text: String)
        requires
            self.rows.len() > 0,
            text_fits(self.text()),
            text_between_readable(self.text(), start as int, end as int),
        ensures
            text@ == text_between(self.text(), start as int, end as int),
    {
        let ghost rows = self.text();
        let (start_row, start_col) = self.find_row_col_of_index(start);
        let (end_row, end_col) = self.find_row_col_of_index(end);
        proof {
            lemma_row_of_index(rows, start as int, start_row as int);
            lemma_row_of_index(rows, end as int, end_row as int);
        }
        let k1 = self.chars_before(start_row, start_col);
        let k2 = self.chars_before(end_row, end_col);
        if start_row == end_row {
            proof {
                if k2 < k1 {
                    lemma_byte_len_take_mono(rows[start_row as int], k2 as int + 1, k1 as int);
                    lemma_byte_len_take_mono(rows[start_row as int], k2 as int, k2 as int + 1);
                }
            }
            let r = self.row_chars(start_row, k1, k2);
            string_of(&r)
        } else {
            let n = chars_of(self.rows[start_row].as_str()).len();
            let mut text = self.row_chars(start_row, k1, n);
            assert(text@ =~= rows[start_row as int].skip(k1 as int));
            text.push('\n');
            let mut lines: Vec<Vec<char>> = Vec::new();
            let mut i: usize = start_row + 1;
            while i < end_row
                invariant
                    start_row + 1 <= i <= end_row < rows.len(),
                    rows == self.text(),
                    lines_view(lines@) == rows.subrange(start_row + 1, i as int),
                decreases end_row - i,
            {
                let ghost before = lines_view(lines@);
                let row = chars_of(self.rows[i].as_str());
                lines.push(row);
                assert(lines_view(lines@) =~= before.push(rows[i as int]));
                assert(lines_view(lines@) =~= rows.subrange(start_row + 1, i + 1));
                i += 1;
            }
            lines.push(self.row_chars(end_row, 0, k2));
            assert(lines_view(lines@) =~= rows.subrange(start_row + 1, end_row as int).push(rows[end_row as int].take(k2 as int)));
            let mut joined = join_lines(&lines);
            text.append(&mut joined);
            string_of(&text)
        }
    }

    /// Removes the selected text and returns it (see `get_text` and
    /// `delete_text_by_selection`).
    pub fn cut_text(&mut self) -> (text: String)
        requires
            old(self).rows.len() > 0,
            text_fits(old(self).text()),
            text_between_readable(old(self).text(), old(self).selection.start as int, old(self).selection.end as int),
            selection_deletable(old(self)@),
        ensures
            text@ == text_between(old(self).text(), old(self).selection.start as int, old(self).selection.end as int),
            final(self)@ == after_delete_selection(old(self)@),
    {
        let text = self.get_text(self.selection.start, self.selection.end);
        self.delete_text_by_selection();
        text
    }

    /// Byte offset in a row at which a glyph starts, or the row's byte length when it has no
    /// such glyph.
    pub fn byte_offset_of_index(&self, row_number: usize, index: usize) -> (offset: usize)
        requires
            row_number < self.rows.len(),
            byte_len(self.text()[row_number as int]) <= usize::MAX,
        ensures
            offset == byte_len(self.text()[row_number as int].take(glyph_offset(self.text()[row_number as int], index as int))),
    {
        let off = glyph_char_offset(self.rows[row_number].as_str(), index);
        let v = chars_of(self.rows[row_number].as_str());
        proof {
            lemma_byte_len_take_mono(v@, off as int, v@.len() as int);
            assert(v@.take(v@.len() as int) =~= v@);
        }
        byte_len_of_prefix(&v, off)
    }
}

/// Whether `c` may belong to a word.
fn might_be_word_char(c: char) -> (b: bool)
    ensures
        b == word_char(c),
{
    is_alphanumeric(c) || c == '_'
}

/// Whether `c` ends the run of characters of the kind of `first` (see `ends_run`).
fn is_run_end(first: char, c: char) -> (b: bool)
    ensures
        b == ends_run(first, c),
{
    if is_whitespace(first) {
        !is_whitespace(c)
    } else if might_be_word_char(first) {
        !might_be_word_char(c)
    } else {
        is_whitespace(c) || might_be_word_char(c)
    }
}

/// Byte range of the run of characters of the kind of `v[index]` around character index
/// `k1` (its start) and `k2` (its end): see `run_start` and `run_end`.
fn find_range(v: &Vec<char>, first: char, k1: usize, k2: usize) -> (range: (usize, usize))
    requires
        k1 <= v@.len(),
        k2 <= v@.len(),
        byte_len(v@) <= usize::MAX,
    ensures
        range.0 as int == run_start(v@, first, k1 as int),
        range.1 as int == run_end(v@, first, k2 as int),
{
    proof {
        assert(v@.take(v@.len() as int) =~= v@);
    }
    let mut j: usize = k1;
    let mut start: usize = 0;
    let mut found = false;
    while j > 0
        invariant
            j <= k1 <= v@.len(),
            byte_len(v@) <= usize::MAX,
            v@.take(v@.len() as int) == v@,
            !found ==> run_start(v@, first, j as int) == run_start(v@, first, k1 as int),
            !found ==> start == 0,
            found ==> start as int == run_start(v@, first, k1 as int),
        decreases j,
    {
        if !found {
            if is_run_end(first, v[j - 1]) {
                proof {
                    lemma_byte_len_take_mono(v@, j - 1, v@.len() as int);
                    lemma_byte_len_take_mono(v@, j - 1, j as int);
                }
                start = byte_len_of_prefix(v, j - 1) + 1;
                found = true;
            }
        }
        j -= 1;
    }
    let mut k: usize = k2;
    let mut end: usize = 0;
    let mut found_end = false;
    while k < v.len()
        invariant
            k2 <= k <= v@.len(),
            byte_len(v@) <= usize::MAX,
            v@.take(v@.len() as int) == v@,
            !found_end ==> run_end(v@, first, k as int) == run_end(v@, first, k2 as int),
            start as int == run_start(v@, first, k1 as int),
            found_end ==> end as int == run_end(v@, first, k2 as int),
        decreases v@.len() - k,
    {
        if !found_end {
            if is_run_end(first, v[k]) {
                proof {
                    lemma_byte_len_take_mono(v@, k as int, v@.len() as int);
                }
                end = byte_len_of_prefix(v, k);
                found_end = true;
            }
        }
        k += 1;
    }
    if !found_end {
        end = byte_len_of_prefix(v, v.len());
    }
    (start, end)
}

impl TheTextEditState {
    /// Selects what a double click at the cursor selects (see `after_quick_select`).
    pub fn quick_select(&mut self)
        requires
            quick_selectable(old(self)@),
        ensures
            final(self)@ == after_quick_select(old(self)@),
    {
        let ghost v0 = self@;
        let row = self.cursor.row;
        let v = chars_of(self.rows[row].as_str());
        let ghost s = v@;
        proof {
            lemma_row_start_mono(self.text(), row as int + 1, self.rows.len() as int);
        }
        let (row_start_index, row_end_index) = self.find_range_of_row(row);
        assert(v@.take(v@.len() as int) =~= v@);
        let text_len = byte_len_of_prefix(&v, v.len());
        // Cursor at the end of the row
        if self.cursor.column >= text_len {
            if self.is_last_row(row) {
                // Select the linebreak before an empty last row
                if v.len() == 0 {
                    self.selection.start = row_start_index - 1;
                    self.selection.end = row_start_index;
                    self.move_cursor_left();
                    return;
                }
            } else {
                // Select the linebreak at the end of the row
                self.selection.start = row_end_index - 1;
                self.selection.end = row_end_index;
                return;
            }
        }
        // Select white space, a word, or a run of other characters
        let col = if self.cursor.column < text_len - 1 { self.cursor.column } else { text_len - 1 };
        let current_char = v[col];
        let k1 = self.chars_before(row, col);
        let k2 = self.chars_before(row, col + 1);
        let (start, end) = find_range(&v, current_char, k1, k2);
        proof {
            assert(end <= byte_len(s)) by {
                lemma_run_end_bounded(s, current_char, k2 as int);
            }
            assert(start <= byte_len(s)) by {
                lemma_run_start_bounded(s, current_char, k1 as int);
                lemma_byte_len_take_mono(s, k1 as int, s.len() as int);
            }
        }
        self.selection.start = row_start_index + start;
        self.selection.end = row_start_index + end;
    }
}

/// A run starts before the character it is searched from.
proof fn lemma_run_start_bounded(s: Seq<char>, first: char, k: int)
    requires
        0 <= k <= s.len(),
    ensures
        0 <= run_start(s, first, k) <= byte_len(s.take(k)),
    decreases k,
{
    if k > 0 {
        lemma_byte_len_take_mono(s, k - 1, k);
        if !ends_run(first, s[k - 1]) {
            lemma_run_start_bounded(s, first, k - 1);
        }
    }
}

/// A run ends within the text.
proof fn lemma_run_end_bounded(s: Seq<char>, first: char, k: int)
    requires
        0 <= k,
    ensures
        0 <= run_end(s, first, k) <= byte_len(s),
    decreases s.len() - k,
{
    if k < s.len() {
        if ends_run(first, s[k]) {
            lemma_byte_len_take_mono(s, k, s.len() as int);
            assert(s.take(s.len() as int) =~= s);
        } else {
            lemma_run_end_bounded(s, first, k + 1);
        }
    }
}

/// The smaller of two numbers.
pub open spec fn min_nat(a: nat, b: nat) -> nat {
    if a < b {
        a
    } else {
        b
    }
}

/// Selected cursor positions within row `r`: none when the selection is empty or misses the
/// row; the linebreak alone when the selection starts on it; else the selected part, which
/// leaves out the linebreak of a non-empty row that is not the last one.
pub open spec fn selected_range_of_row(rows: Seq<Seq<char>>, sel: TheSelection, r: int) -> Option<
    (usize, usize),
> {
    let start = row_start(rows, r);
    let end = row_end(rows, r);
    if sel.start == sel.end {
        None
    } else if !(start < sel.end && end > sel.start) {
        None
    } else if sel.start == end - 1 {
        Some(((end - 1) as usize, end as usize))
    } else {
        let left = if sel.start > start { sel.start as int } else { start as int };
        let bound = if start + 1 == end || r == rows.len() - 1 { end as int } else { end - 1 };
        let right = if sel.end < bound { sel.end as int } else { bound };
        if left == right {
            None
        } else {
            Some((left as usize, right as usize))
        }
    }
}

} // verus!
