//! The pager over the entries of all days in one buffer.

use vstd::prelude::*;
use crate::events::{search_event_of, view_event_of, InputEvent, SearchEvent, ViewEvent};
use crate::pager::Pager;
use crate::range::Range;
use crate::single_date_pager::PagerAction;
use crate::style::Palette;
use crate::viewer::{PagerMode, Viewer, ViewerView};

verus! {

/// The state of the viewer after an event of the view, in a pager without
/// days and without a command line: the keys that scroll, search, resize and
/// quit are taken, all others do nothing.
pub open spec fn after_view_event(v: ViewerView, event: ViewEvent) -> ViewerView {
    match event {
        ViewEvent::NextLine => v.scrolled(v.screen.after_next_line()),
        ViewEvent::PrevLine => v.scrolled(v.screen.after_prev_line()),
        ViewEvent::Quit => ViewerView { is_exit: true, ..v },
        ViewEvent::Resize(columns, rows) => v.resized(columns as nat, rows as nat),
        ViewEvent::GotoPageBegin => v.scrolled(v.screen.after_goto_begin()),
        ViewEvent::GotoPageEnd => v.scrolled(v.screen.after_goto_end()),
        ViewEvent::EnterSearchMode => v.in_mode(PagerMode::Search),
        ViewEvent::SearchNext => v.scrolled(v.screen.after_search_next(true, v.palette.marker@)),
        ViewEvent::SearchPrev => v.scrolled(v.screen.after_search_prev(v.palette.marker@)),
        _ => v,
    }
}

/// The state of the viewer after an event of the terminal, read in the mode
/// that the pager is in. There is no command line.
pub open spec fn after_event(v: ViewerView, event: InputEvent) -> ViewerView {
    match v.mode {
        PagerMode::View => after_view_event(v, view_event_of(event)),
        PagerMode::Command => v,
        PagerMode::Search => v.after_search_event(search_event_of(event)),
    }
}

/// What is to be done outside after an event of the terminal.
pub open spec fn event_action(v: ViewerView, event: InputEvent) -> PagerAction {
    if v.mode == PagerMode::View && view_event_of(event) == ViewEvent::Quit {
        PagerAction::Quit
    } else {
        PagerAction::Redraw
    }
}

/// The pager over the entries of all days.
pub struct PagingAllPager {
    viewer: Viewer,
}

impl View for PagingAllPager {
    type V = ViewerView;

    closed spec fn view(&self) -> ViewerView {
        self.viewer@
    }
}

impl PagingAllPager {
    /// The pager's invariant.
    pub closed spec fn wf(&self) -> bool {
        self.viewer.wf()
    }

    /// The invariant says of the state what the state's own invariant says.
    pub proof fn lemma_wf(&self)
        requires
            self.wf(),
        ensures
            self@.wf(),
    {
    }

    /// A pager in the view, without entries, for a terminal of the given size.
    pub fn new(palette: Palette, cols: u16, rows: u16) -> (pager: Self)
        ensures
            pager.wf(),
            pager@.mode == PagerMode::View,
            !pager@.is_exit,
            pager@.entries.len() == 0,
            pager@.pattern is None,
            pager@.search_input.len() == 0,
            pager@.palette == palette,
            pager@.screen.anchor == 0,
            pager@.screen.cols == cols,
            pager@.screen.rows == rows,
    {
        PagingAllPager { viewer: Viewer::new(palette, cols, rows) }
    }

    /// The viewer: entries, lines, scroll state, search and mode.
    pub fn viewer(&self) -> (viewer: &Viewer)
        ensures
            viewer@ == self@,
            self.wf() ==> viewer.wf(),
    {
        &self.viewer
    }

    /// The number of rendered lines.
    pub fn total_content_lines(&self) -> (n: usize)
        ensures
            n == self@.screen.total(),
    {
        self.viewer.total_content_lines()
    }

    /// The lines on the page.
    pub fn page_range(&self) -> (r: Range)
        ensures
            r.wf(),
            r.begin == self@.screen.top(),
            r.end == self@.screen.page_end(),
    {
        self.viewer.page_range()
    }

    /// Takes the text of all log files, in the order of their days.
    pub fn update_log_items(&mut self, content: &str)
        requires
            old(self).wf(),
        ensures
            final(self).wf(),
            final(self)@ == old(self)@.loaded(content@),
    {
        self.viewer.set_content(content);
    }

    /// Scrolls down by one line, unless the last line is on the page.
    pub fn next_line(&mut self)
        requires
            old(self).wf(),
        ensures
            final(self).wf(),
            final(self)@ == old(self)@.scrolled(old(self)@.screen.after_next_line()),
    {
        self.viewer.next_line();
    }

    /// Scrolls up by one line, unless the first line is on top.
    pub fn prev_line(&mut self)
        requires
            old(self).wf(),
        ensures
            final(self).wf(),
            final(self)@ == old(self)@.scrolled(old(self)@.screen.after_prev_line()),
    {
        self.viewer.prev_line();
    }

    /// Takes an event of the view.
    pub fn handle_view_event(&mut self, event: ViewEvent) -> (action: PagerAction)
        requires
            old(self).wf(),
        ensures
            final(self).wf(),
            final(self)@ == after_view_event(old(self)@, event),
            action == if event == ViewEvent::Quit {
                PagerAction::Quit
            } else {
                PagerAction::Redraw
            },
    {
        match event {
            ViewEvent::NextLine => {
                self.viewer.next_line();
            },
            ViewEvent::PrevLine => {
                self.viewer.prev_line();
            },
            ViewEvent::Quit => {
                self.viewer.exit();
                return PagerAction::Quit;
            },
            ViewEvent::Resize(columns, rows) => {
                self.viewer.resize(columns, rows);
            },
            ViewEvent::GotoPageBegin => {
                self.viewer.goto_page_begin();
            },
            ViewEvent::GotoPageEnd => {
                self.viewer.goto_page_end();
            },
            ViewEvent::EnterSearchMode => {
                self.viewer.enter_mode(PagerMode::Search);
            },
            ViewEvent::SearchNext => {
                self.viewer.search_next(true);
            },
            ViewEvent::SearchPrev => {
                self.viewer.search_prev();
            },
            _ => {},
        }
        PagerAction::Redraw
    }

    /// Takes an event of the search line. A pattern that does not compile
    /// changes nothing but the mode.
    pub fn handle_search_event(&mut self, event: SearchEvent) -> (action: PagerAction)
        requires
            old(self).wf(),
        ensures
            final(self).wf(),
            final(self)@ == old(self)@.after_search_event(event),
            action == PagerAction::Redraw,
    {
        let _ = self.viewer.handle_search_event(event);
        PagerAction::Redraw
    }

    /// Takes an event of the terminal, reads it in the mode that the pager
    /// is in, and says what is to be done outside.
    pub fn handle_event(&mut self, event: InputEvent) -> (action: PagerAction)
        requires
            old(self).wf(),
        ensures
            final(self).wf(),
            final(self)@ == after_event(old(self)@, event),
            action == event_action(old(self)@, event),
    {
        match self.viewer.mode() {
            PagerMode::View => self.handle_view_event(ViewEvent::from_crossterm_event(event)),
            PagerMode::Command => PagerAction::Redraw,
            PagerMode::Search => self.handle_search_event(SearchEvent::from_crossterm_event(event)),
        }
    }
}

impl Pager for PagingAllPager {
    open spec fn pager_lines(&self) -> Seq<Seq<char>> {
        self@.screen.lines
    }

    open spec fn pager_anchor(&self) -> nat {
        self@.screen.anchor
    }

    open spec fn pager_wf(&self) -> bool {
        self.wf()
    }

    fn begin_line_index(&self) -> (line: usize) {
        self.viewer.screen().begin_line_index()
    }

    fn colored_lines(&self) -> (lines: &Vec<String>) {
        self.viewer.screen().lines()
    }

    fn set_begin_line_index(&mut self, line_index: usize) {
        self.viewer.set_begin_line_index(line_index);
    }
}

} // verus!
