//! What every pager has: the entries, the scroll state over their rendered
//! lines, the active search and the input mode.

use vstd::prelude::*;
use crate::events::SearchEvent;
use crate::log_item::{parse_entries, EntryModel, LogItemList};
use crate::range::Range;
use crate::render::{fits, render, shown_lines};
use crate::screen::{Screen, ScreenView};
use crate::search::{compile, pattern_compiles, CompiledPattern, PatternError};
use crate::style::Palette;
use crate::text::string_of;
use crate::utils::texts;

verus! {

/// How the input is read: as keys of the view, as a command line, or as a
/// search pattern.
#[derive(Clone, Copy, Debug, PartialEq, Eq, Structural)]
pub enum PagerMode {
    View,
    Command,
    Search,
}

/// The state of a viewer as a mathematical value.
pub struct ViewerView {
    pub screen: ScreenView,
    pub entries: Seq<EntryModel>,
    pub pattern: Option<Seq<char>>,
    pub search_input: Seq<char>,
    pub mode: PagerMode,
    pub is_exit: bool,
    pub palette: Palette,
}

impl ViewerView {
    /// The lines that belong to the entries, the search and the width.
    pub open spec fn lines(self) -> Seq<Seq<char>> {
        shown_lines(self.entries, self.pattern, self.palette, self.screen.cols as int)
    }

    /// The lines on the screen are those that belong to the entries, the
    /// search and the width, and their visible characters can be counted.
    pub open spec fn wf(self) -> bool {
        self.screen.wf() && self.screen.lines == self.lines()
    }

    /// The state with the lines rendered anew. The anchor stays.
    pub open spec fn rendered(self) -> ViewerView {
        ViewerView { screen: ScreenView { lines: self.lines(), ..self.screen }, ..self }
    }

    /// The state after the terminal took a new size.
    pub open spec fn resized(self, cols: nat, rows: nat) -> ViewerView {
        (ViewerView { screen: ScreenView { cols, rows, ..self.screen }, ..self }).rendered()
    }

    /// The state with the entries of a text.
    pub open spec fn loaded(self, content: Seq<char>) -> ViewerView {
        (ViewerView { entries: parse_entries(content), ..self }).rendered()
    }

    /// The state without entries.
    pub open spec fn unloaded(self) -> ViewerView {
        (ViewerView { entries: Seq::empty(), ..self }).rendered()
    }

    /// The state in another mode. The input of the mode that is left, and of
    /// the one that is entered, is dropped.
    pub open spec fn in_mode(self, mode: PagerMode) -> ViewerView {
        ViewerView { mode, search_input: Seq::empty(), ..self }
    }

    /// The state with another scroll state.
    pub open spec fn scrolled(self, screen: ScreenView) -> ViewerView {
        ViewerView { screen, ..self }
    }

    /// The state after the typed pattern was confirmed. A pattern that
    /// compiles becomes the active one, the lines are rendered with its
    /// matches marked, and the top line goes to the first line with a match
    /// from the top line on. A pattern that does not compile changes
    /// nothing: the active search stays. Either way the view is entered.
    pub open spec fn confirmed(self) -> ViewerView {
        if pattern_compiles(self.search_input) {
            let r = (ViewerView { pattern: Some(self.search_input), ..self }).in_mode(
                PagerMode::View,
            ).rendered();
            r.scrolled(r.screen.after_search_next(false, self.palette.marker@))
        } else {
            self.in_mode(PagerMode::View)
        }
    }

    /// The state after an event of the search line.
    pub open spec fn after_search_event(self, event: SearchEvent) -> ViewerView {
        match event {
            SearchEvent::Confirm => self.confirmed(),
            SearchEvent::Char(c) => ViewerView { search_input: self.search_input.push(c), ..self },
            SearchEvent::Ignored => self,
            SearchEvent::Cancel => self.in_mode(PagerMode::View),
            SearchEvent::Backspace => if self.search_input.len() == 0 {
                self.in_mode(PagerMode::View)
            } else {
                ViewerView { search_input: self.search_input.drop_last(), ..self }
            },
            SearchEvent::ClearLine => ViewerView { search_input: Seq::empty(), ..self },
        }
    }
}

/// Resizing to another size and back gives the state that was: the same
/// lines, the same anchor, and so the same top line.
pub proof fn lemma_resize_and_back(v: ViewerView, cols: nat, rows: nat)
    requires
        v.wf(),
    ensures
        v.resized(cols, rows).resized(v.screen.cols, v.screen.rows) == v,
        v.resized(cols, rows).resized(v.screen.cols, v.screen.rows).screen.top() == v.screen.top(),
        v.resized(cols, rows).screen.anchor == v.screen.anchor,
{
}

/// The entries, their rendered lines, the active search and the input mode.
pub struct Viewer {
    screen: Screen,
    log_item_list: LogItemList,
    search_pattern: Option<CompiledPattern>,
    search_pattern_input: Vec<char>,
    mode: PagerMode,
    is_exit: bool,
    palette: Palette,
}

impl View for Viewer {
    type V = ViewerView;

    closed spec fn view(&self) -> ViewerView {
        ViewerView {
            screen: self.screen@,
            entries: self.log_item_list.entries(),
            pattern: match self.search_pattern {
                Some(compiled) => Some(compiled.source()),
                None => None,
            },
            search_input: self.search_pattern_input@,
            mode: self.mode,
            is_exit: self.is_exit,
            palette: self.palette,
        }
    }
}

impl Viewer {
    /// The entries are well formed.
    pub closed spec fn items_wf(&self) -> bool {
        self.log_item_list.wf()
    }

    /// The viewer's invariant.
    pub open spec fn wf(&self) -> bool {
        self@.wf() && self.items_wf()
    }

    /// A viewer without entries, in the view, for a terminal of the given size.
    pub fn new(palette: Palette, cols: u16, rows: u16) -> (v: Self)
        ensures
            v.wf(),
            v@.screen == (ScreenView {
                lines: Seq::empty(),
                anchor: 0,
                rows: rows as nat,
                cols: cols as nat,
            }),
            v@.entries == Seq::<EntryModel>::empty(),
            v@.pattern is None,
            v@.search_input == Seq::<char>::empty(),
            v@.mode == PagerMode::View,
            !v@.is_exit,
            v@.palette == palette,
    {
        let mut v = Viewer {
            screen: Screen::new(cols, rows),
            log_item_list: LogItemList::new(),
            search_pattern: None,
            search_pattern_input: Vec::new(),
            mode: PagerMode::View,
            is_exit: false,
            palette,
        };
        v.update_colored_lines();
        assert(v@.screen.lines =~= Seq::<Seq<char>>::empty()) by {
            reveal_with_fuel(crate::render::render_upto, 2);
            assert(crate::utils::visible_total(Seq::<Seq<char>>::empty()) == 0);
        }
        v
    }

    /// Renders the lines anew from the entries, the active search and the
    /// width. Where the buffer would hold more visible characters than can
    /// be counted, no line is shown.
    pub fn update_colored_lines(&mut self)
        requires
            old(self).items_wf(),
        ensures
            final(self).wf(),
            final(self)@ == old(self)@.rendered(),
    {
        let lines = match &self.search_pattern {
            Some(compiled) => render(
                &self.log_item_list,
                Some(compiled),
                &self.palette,
                self.screen.cols() as usize,
            ),
            None => render(&self.log_item_list, None, &self.palette, self.screen.cols() as usize),
        };
        if fits(&lines) {
            self.screen.set_lines(lines);
        } else {
            let none: Vec<String> = Vec::new();
            assert(texts(none@) =~= Seq::<Seq<char>>::empty());
            assert(crate::utils::visible_total(Seq::<Seq<char>>::empty()) == 0);
            self.screen.set_lines(none);
        }
    }

    /// Takes the text of the log files as the entries, and renders them.
    pub fn set_content(&mut self, content: &str)
        ensures
            final(self).wf(),
            final(self)@ == old(self)@.loaded(content@),
    {
        match LogItemList::from_str(content) {
            Ok(list) => {
                self.log_item_list = list;
            },
            Err(_) => {},
        }
        self.update_colored_lines();
    }

    /// Drops the entries.
    pub fn clear_content(&mut self)
        ensures
            final(self).wf(),
            final(self)@ == old(self)@.unloaded(),
    {
        self.log_item_list = LogItemList::new();
        self.update_colored_lines();
    }

    /// Takes the new size of the terminal and renders the lines at the new
    /// width. The anchor stays, so the top line is the one that holds the
    /// same visible character as before.
    pub fn resize(&mut self, columns: u16, rows: u16)
        requires
            old(self).wf(),
        ensures
            final(self).wf(),
            final(self)@ == old(self)@.resized(columns as nat, rows as nat),
            final(self)@.screen.anchor == old(self)@.screen.anchor,
    {
        self.screen.set_size(columns, rows);
        self.update_colored_lines();
    }

    /// The scroll state.
    pub fn screen(&self) -> (screen: &Screen)
        ensures
            screen@ == self@.screen,
    {
        &self.screen
    }

    /// The entries.
    pub fn log_item_list(&self) -> (list: &LogItemList)
        ensures
            list.entries() == self@.entries,
            list.wf() == self.items_wf(),
    {
        &self.log_item_list
    }

    /// The palette.
    pub fn palette(&self) -> (palette: &Palette)
        ensures
            *palette == self@.palette,
    {
        &self.palette
    }

    /// The input mode.
    pub fn mode(&self) -> (mode: PagerMode)
        ensures
            mode == self@.mode,
    {
        self.mode
    }

    /// Whether the pager was left.
    pub fn is_exit(&self) -> (b: bool)
        ensures
            b == self@.is_exit,
    {
        self.is_exit
    }

    /// The pattern that is being typed.
    pub fn search_pattern_input(&self) -> (s: String)
        ensures
            s@ == self@.search_input,
    {
        string_of(&self.search_pattern_input)
    }

    /// Whether a search is active.
    pub fn has_search_pattern(&self) -> (b: bool)
        ensures
            b == self@.pattern is Some,
    {
        self.search_pattern.is_some()
    }

    /// The number of rendered lines.
    pub fn total_content_lines(&self) -> (n: usize)
        ensures
            n == self@.screen.total(),
    {
        self.screen.total_content_lines()
    }

    /// The lines on the page.
    pub fn page_range(&self) -> (r: Range)
        ensures
            r.wf(),
            r.begin == self@.screen.top(),
            r.end == self@.screen.page_end(),
    {
        self.screen.page_range()
    }

    /// Scrolls down by one line, unless the last line is on the page.
    pub fn next_line(&mut self)
        requires
            old(self).wf(),
        ensures
            final(self).wf(),
            final(self)@ == old(self)@.scrolled(old(self)@.screen.after_next_line()),
    {
        self.screen.next_line();
    }

    /// Scrolls up by one line, unless the first line is on top.
    pub fn prev_line(&mut self)
        requires
            old(self).wf(),
        ensures
            final(self).wf(),
            final(self)@ == old(self)@.scrolled(old(self)@.screen.after_prev_line()),
    {
        self.screen.prev_line();
    }

    /// Puts the first line on top.
    pub fn goto_page_begin(&mut self)
        requires
            old(self).wf(),
        ensures
            final(self).wf(),
            final(self)@ == old(self)@.scrolled(old(self)@.screen.after_goto_begin()),
    {
        self.screen.goto_page_begin();
    }

    /// Puts the last line at the end of the page.
    pub fn goto_page_end(&mut self)
        requires
            old(self).wf(),
        ensures
            final(self).wf(),
            final(self)@ == old(self)@.scrolled(old(self)@.screen.after_goto_end()),
    {
        self.screen.goto_page_end();
    }

    /// Puts the top line on the first line.
    pub fn reset_anchor(&mut self)
        requires
            old(self).wf(),
        ensures
            final(self).wf(),
            final(self)@ == old(self)@.scrolled(ScreenView { anchor: 0, ..old(self)@.screen }),
    {
        self.screen.reset_anchor();
    }

    /// Puts the top line on the line with the given index.
    pub fn set_begin_line_index(&mut self, line_index: usize)
        requires
            old(self).wf(),
        ensures
            final(self).wf(),
            final(self)@ == old(self)@.scrolled(old(self)@.screen.moved_to(line_index as int)),
    {
        self.screen.set_begin_line_index(line_index);
    }

    /// Puts the top line on the next line with a match.
    pub fn search_next(&mut self, skip_current_line: bool)
        requires
            old(self).wf(),
        ensures
            final(self).wf(),
            final(self)@ == old(self)@.scrolled(
                old(self)@.screen.after_search_next(skip_current_line, old(self)@.palette.marker@),
            ),
    {
        self.screen.search_next(skip_current_line, self.palette.marker.as_str());
    }

    /// Puts the top line on the last line with a match before it.
    pub fn search_prev(&mut self)
        requires
            old(self).wf(),
        ensures
            final(self).wf(),
            final(self)@ == old(self)@.scrolled(
                old(self)@.screen.after_search_prev(old(self)@.palette.marker@),
            ),
    {
        self.screen.search_prev(self.palette.marker.as_str());
    }

    /// Enters a mode, and drops what was typed.
    pub fn enter_mode(&mut self, mode: PagerMode)
        requires
            old(self).wf(),
        ensures
            final(self).wf(),
            final(self)@ == old(self)@.in_mode(mode),
    {
        self.search_pattern_input.clear();
        self.mode = mode;
    }

    /// Leaves the pager.
    pub fn exit(&mut self)
        requires
            old(self).wf(),
        ensures
            final(self).wf(),
            final(self)@ == (ViewerView { is_exit: true, ..old(self)@ }),
    {
        self.is_exit = true;
    }

    /// Confirms the pattern that was typed. A pattern that does not compile
    /// is reported, and changes nothing but the mode.
    pub fn confirm_search(&mut self) -> (r: Result<(), PatternError>)
        requires
            old(self).wf(),
        ensures
            final(self).wf(),
            final(self)@ == old(self)@.confirmed(),
            r is Ok <==> pattern_compiles(old(self)@.search_input),
    {
        let typed = string_of(&self.search_pattern_input);
        match compile(typed.as_str()) {
            Ok(compiled) => {
                self.search_pattern = Some(compiled);
                self.search_pattern_input.clear();
                self.mode = PagerMode::View;
                self.update_colored_lines();
                self.search_next(false);
                Ok(())
            },
            Err(e) => {
                self.enter_mode(PagerMode::View);
                Err(e)
            },
        }
    }

    /// Takes an event of the search line. A pattern that does not compile is
    /// reported.
    pub fn handle_search_event(&mut self, event: SearchEvent) -> (r: Result<(), PatternError>)
        requires
            old(self).wf(),
        ensures
            final(self).wf(),
            final(self)@ == old(self)@.after_search_event(event),
            r is Err <==> event == SearchEvent::Confirm && !pattern_compiles(old(self)@.search_input),
    {
        match event {
            SearchEvent::Confirm => {
                return self.confirm_search();
            },
            SearchEvent::Char(c) => {
                self.search_pattern_input.push(c);
            },
            SearchEvent::Ignored => {},
            SearchEvent::Cancel => {
                self.enter_mode(PagerMode::View);
            },
            SearchEvent::Backspace => {
                if self.search_pattern_input.len() == 0 {
                    self.enter_mode(PagerMode::View);
                } else {
                    self.search_pattern_input.pop();
                }
            },
            SearchEvent::ClearLine => {
                self.search_pattern_input.clear();
            },
        }
        Ok(())
    }
}

} // verus!
