//! The scroll state of a pager: the rendered lines, the size of the terminal,
//! and the anchor that says which line is on top.
//!
//! The anchor is the number of visible characters before the top line, not
//! the index of a line, so that it means the same when the lines are wrapped
//! anew at another width.

use vstd::prelude::*;
use crate::range::Range;
use crate::search::{
    anchor_after_next, anchor_after_prev, search_next_line, search_prev_line,
};
use crate::utils::{
    get_char_index_by_line_index, get_line_index_by_char_index, lemma_line_of_offset_from,
    lemma_visible_before_monotone, line_of_offset, texts, top_line,
    visible_before, visible_total,
};

verus! {

/// The scroll state as a mathematical value.
pub struct ScreenView {
    pub lines: Seq<Seq<char>>,
    pub anchor: nat,
    pub rows: nat,
    pub cols: nat,
}

impl ScreenView {
    /// The number of rendered lines.
    pub open spec fn total(self) -> int {
        self.lines.len() as int
    }

    /// The index of the top line.
    pub open spec fn top(self) -> int {
        top_line(self.lines, self.anchor)
    }

    /// The number of lines that a page holds: all rows but the two bars at
    /// the bottom, and one line where there are no more than two rows.
    pub open spec fn window(self) -> int {
        if self.rows <= 2 {
            1
        } else {
            self.rows - 2
        }
    }

    /// The index behind the last line of the page.
    pub open spec fn page_end(self) -> int {
        if self.top() + self.window() < self.total() {
            self.top() + self.window()
        } else {
            self.total()
        }
    }

    /// The visible characters of the lines can be counted.
    pub open spec fn wf(self) -> bool {
        visible_total(self.lines) <= usize::MAX
    }

    /// The state with the top line on `line`.
    pub open spec fn moved_to(self, line: int) -> ScreenView {
        ScreenView { anchor: visible_before(self.lines, line), ..self }
    }

    /// The state one line further down; the same state where the last line
    /// is on the page already.
    pub open spec fn after_next_line(self) -> ScreenView {
        if self.page_end() >= self.total() {
            self
        } else {
            self.moved_to(self.top() + 1)
        }
    }

    /// The state one line further up; the same state at the first line.
    pub open spec fn after_prev_line(self) -> ScreenView {
        if self.top() == 0 {
            self
        } else {
            self.moved_to(self.top() - 1)
        }
    }

    /// The state at the first line.
    pub open spec fn after_goto_begin(self) -> ScreenView {
        self.moved_to(0)
    }

    /// The state with the last line at the end of the page.
    pub open spec fn after_goto_end(self) -> ScreenView {
        self.moved_to(self.top() + (self.total() - self.page_end()))
    }

    /// The state after a search forward for a line with `marker`.
    pub open spec fn after_search_next(self, skip_current: bool, marker: Seq<char>) -> ScreenView {
        ScreenView {
            anchor: anchor_after_next(self.lines, self.anchor, skip_current, marker),
            ..self
        }
    }

    /// The state after a search backward for a line with `marker`.
    pub open spec fn after_search_prev(self, marker: Seq<char>) -> ScreenView {
        ScreenView { anchor: anchor_after_prev(self.lines, self.anchor, marker), ..self }
    }
}

/// The top line is a line of the buffer, and the page begins there and ends
/// no later than the buffer.
pub proof fn lemma_page_in_buffer(v: ScreenView)
    ensures
        0 <= v.top() <= v.page_end() <= v.total(),
        v.total() > 0 ==> v.top() < v.total() && v.top() < v.page_end(),
        line_of_offset(v.lines, v.anchor) is Some ==> visible_before(v.lines, v.top()) <= v.anchor
            < visible_before(v.lines, v.top() + 1),
{
    lemma_line_of_offset_from(v.lines, v.anchor, 0);
}

/// Scrolling by a line is clamped. Down: nothing moves once the last line is
/// on the page; otherwise the anchor goes to the next line, below which a
/// full page is left, and the new top line is a line of the buffer. Up:
/// nothing moves at the first line; otherwise the anchor goes to the line
/// before, and neither the anchor nor the top line grows.
pub proof fn lemma_scroll_clamped(v: ScreenView)
    ensures
        v.page_end() >= v.total() ==> v.after_next_line() == v,
        v.page_end() < v.total() ==> v.after_next_line().anchor == visible_before(
            v.lines,
            v.top() + 1,
        ) && v.top() + 1 + v.window() <= v.total(),
        0 <= v.after_next_line().top(),
        v.total() > 0 ==> v.after_next_line().top() < v.total(),
        v.top() == 0 ==> v.after_prev_line() == v,
        v.after_prev_line().anchor <= v.anchor,
        0 <= v.after_prev_line().top() <= v.top(),
{
    lemma_page_in_buffer(v);
    lemma_page_in_buffer(v.after_next_line());
    let p = v.after_prev_line();
    lemma_page_in_buffer(p);
    if v.top() > 0 {
        lemma_visible_before_monotone(v.lines, v.top() - 1, v.top());
        lemma_visible_before_monotone(v.lines, v.top() + 1, v.total());
        lemma_line_of_offset_from(v.lines, p.anchor, 0);
        if p.top() > v.top() {
            lemma_visible_before_monotone(v.lines, v.top() + 1, p.top());
        }
    }
}

/// The row of the bar that shows the date: the second row from the bottom,
/// the bottom row of a terminal with two rows, and none with fewer.
pub fn date_row(rows: u16) -> (row: Option<u16>)
    ensures
        rows <= 1 ==> row is None,
        rows == 2 ==> row == Some(1u16),
        rows > 2 ==> row == Some((rows - 2) as u16),
{
    if rows <= 1 {
        None
    } else if rows == 2 {
        Some(1)
    } else {
        Some(rows - 2)
    }
}

/// The row of the bar that shows messages and what is typed: the bottom
/// row, and none in a terminal without rows.
pub fn message_row(rows: u16) -> (row: Option<u16>)
    ensures
        rows == 0 ==> row is None,
        rows > 0 ==> row == Some((rows - 1) as u16),
{
    if rows == 0 {
        None
    } else {
        Some(rows - 1)
    }
}

/// The scroll state of a pager.
pub struct Screen {
    lines: Vec<String>,
    begin_char_index: usize,
    rows: u16,
    cols: u16,
}

impl View for Screen {
    type V = ScreenView;

    closed spec fn view(&self) -> ScreenView {
        ScreenView {
            lines: texts(self.lines@),
            anchor: self.begin_char_index as nat,
            rows: self.rows as nat,
            cols: self.cols as nat,
        }
    }
}

impl Screen {
    /// The visible characters of the lines can be counted.
    pub open spec fn wf(&self) -> bool {
        self@.wf()
    }

    /// A screen of the given size without lines.
    pub fn new(cols: u16, rows: u16) -> (s: Self)
        ensures
            s.wf(),
            s@ == (ScreenView { lines: Seq::empty(), anchor: 0, rows: rows as nat, cols: cols as nat }),
    {
        let s = Screen { lines: Vec::new(), begin_char_index: 0, rows, cols };
        assert(s@.lines =~= Seq::<Seq<char>>::empty());
        s
    }

    /// The rendered lines.
    pub fn lines(&self) -> (lines: &Vec<String>)
        ensures
            texts(lines@) == self@.lines,
    {
        &self.lines
    }

    /// The number of rows of the terminal.
    pub fn rows(&self) -> (rows: u16)
        ensures
            rows == self@.rows,
    {
        self.rows
    }

    /// The number of columns of the terminal.
    pub fn cols(&self) -> (cols: u16)
        ensures
            cols == self@.cols,
    {
        self.cols
    }

    /// The number of visible characters before the top line.
    pub fn begin_char_index(&self) -> (anchor: usize)
        ensures
            anchor == self@.anchor,
    {
        self.begin_char_index
    }

    /// The number of rendered lines.
    pub fn total_content_lines(&self) -> (n: usize)
        ensures
            n == self@.total(),
    {
        self.lines.len()
    }

    /// Takes new lines; the anchor stays.
    pub fn set_lines(&mut self, lines: Vec<String>)
        requires
            visible_total(texts(lines@)) <= usize::MAX,
        ensures
            final(self).wf(),
            final(self)@ == (ScreenView { lines: texts(lines@), ..old(self)@ }),
    {
        self.lines = lines;
    }

    /// Takes a new size of the terminal; lines and anchor stay.
    pub fn set_size(&mut self, cols: u16, rows: u16)
        ensures
            final(self)@ == (ScreenView { cols: cols as nat, rows: rows as nat, ..old(self)@ }),
    {
        self.cols = cols;
        self.rows = rows;
    }

    /// Puts the anchor at the first line.
    pub fn reset_anchor(&mut self)
        ensures
            final(self)@ == (ScreenView { anchor: 0, ..old(self)@ }),
    {
        self.begin_char_index = 0;
    }

    /// The index of the top line.
    pub fn begin_line_index(&self) -> (line: usize)
        ensures
            line == self@.top(),
    {
        match get_line_index_by_char_index(self.lines.as_slice(), self.begin_char_index) {
            Some(line) => line,
            None => 0,
        }
    }

    /// Puts the top line on the line with the given index.
    pub fn set_begin_line_index(&mut self, line_index: usize)
        requires
            old(self).wf(),
        ensures
            final(self).wf(),
            final(self)@ == old(self)@.moved_to(line_index as int),
    {
        proof {
            lemma_visible_before_monotone(self@.lines, line_index as int, line_index as int);
        }
        self.begin_char_index = get_char_index_by_line_index(self.lines.as_slice(), line_index);
    }

    /// The lines on the page: from the top line on, as many as the window
    /// holds and the buffer has.
    pub fn page_range(&self) -> (r: Range)
        ensures
            r.wf(),
            r.begin == self@.top(),
            r.end == self@.page_end(),
    {
        proof {
            lemma_page_in_buffer(self@);
        }
        let begin = self.begin_line_index();
        let window: usize = if self.rows <= 2 {
            1
        } else {
            (self.rows - 2) as usize
        };
        let total = self.lines.len();
        let end = if window < total - begin {
            begin + window
        } else {
            total
        };
        Range::new(begin, end)
    }

    /// Scrolls down by one line, unless the last line is on the page.
    pub fn next_line(&mut self)
        requires
            old(self).wf(),
        ensures
            final(self).wf(),
            final(self)@ == old(self)@.after_next_line(),
            old(self)@.page_end() >= old(self)@.total() ==> final(self)@ == old(self)@,
            final(self)@.total() > 0 ==> final(self)@.top() < final(self)@.total(),
    {
        proof {
            lemma_scroll_clamped(self@);
        }
        let page_range = self.page_range();
        if page_range.end >= self.total_content_lines() {
            return ;
        }
        self.set_begin_line_index(page_range.begin + 1);
    }

    /// Scrolls up by one line, unless the first line is on top.
    pub fn prev_line(&mut self)
        requires
            old(self).wf(),
        ensures
            final(self).wf(),
            final(self)@ == old(self)@.after_prev_line(),
            old(self)@.top() == 0 ==> final(self)@ == old(self)@,
            final(self)@.anchor <= old(self)@.anchor,
            0 <= final(self)@.top() <= old(self)@.top(),
    {
        proof {
            lemma_scroll_clamped(self@);
        }
        let page_range_begin = self.page_range().begin;
        if page_range_begin == 0 {
            return ;
        }
        self.set_begin_line_index(page_range_begin - 1);
    }

    /// Puts the first line on top.
    pub fn goto_page_begin(&mut self)
        requires
            old(self).wf(),
        ensures
            final(self).wf(),
            final(self)@ == old(self)@.after_goto_begin(),
            final(self)@.anchor == 0,
    {
        self.set_begin_line_index(0);
    }

    /// Puts the last line at the end of the page.
    pub fn goto_page_end(&mut self)
        requires
            old(self).wf(),
        ensures
            final(self).wf(),
            final(self)@ == old(self)@.after_goto_end(),
    {
        let page_range = self.page_range();
        let diff = self.total_content_lines() - page_range.end;
        proof {
            lemma_page_in_buffer(self@);
        }
        self.set_begin_line_index(page_range.begin + diff);
    }

    /// Puts the top line on the next line that holds `marker`, if there is one.
    pub fn search_next(&mut self, skip_current_line: bool, marker: &str)
        requires
            old(self).wf(),
        ensures
            final(self).wf(),
            final(self)@ == old(self)@.after_search_next(skip_current_line, marker@),
    {
        let current = self.begin_line_index();
        match search_next_line(self.lines.as_slice(), current, skip_current_line, marker) {
            Some(line_index) => {
                self.set_begin_line_index(line_index);
            },
            None => {},
        }
    }

    /// Puts the top line on the last line before it that holds `marker`, if
    /// there is one.
    pub fn search_prev(&mut self, marker: &str)
        requires
            old(self).wf(),
        ensures
            final(self).wf(),
            final(self)@ == old(self)@.after_search_prev(marker@),
    {
        let current = self.begin_line_index();
        match search_prev_line(self.lines.as_slice(), current, marker) {
            Some(line_index) => {
                self.set_begin_line_index(line_index);
            },
            None => {},
        }
    }
}

} // verus!
