//! The pager over the entries of one day.
//!
//! The pager is a state machine. It takes what the terminal reports and says
//! what is to be done outside: draw the page, load the log file of the day,
//! hand the file to an editor, or stop. Reading files and the terminal is
//! left to the caller.

use vstd::prelude::*;
use crate::command::{date_word, Command};
use crate::events::{
    command_event_of, search_event_of, view_event_of, CommandEvent, InputEvent, SearchEvent,
    ViewEvent,
};
use crate::pager::Pager;
use crate::range::Range;
use crate::search::pattern_compiles;
use crate::style::Palette;
use crate::text::{push_all, split_words, string_of, to_chars};
use crate::time::{
    add_one_day, comes_before, date_label, date_text, day_after, day_before, format_date,
    get_today_date, label_text, parse_date, parsed_date, sub_one_day, Date, MAX_YEAR, MIN_YEAR,
};
use crate::viewer::{PagerMode, Viewer, ViewerView};

verus! {

/// What is to be done outside the pager after an event.
#[derive(Clone, Copy, Debug, PartialEq, Eq, Structural)]
pub enum PagerAction {
    /// Draw the page.
    Redraw,
    /// Load the log file of the pager's date, then draw the page.
    Reload,
    /// Hand the log file of the pager's date to an editor, load it, then
    /// draw the page.
    Edit,
    /// Stop.
    Quit,
}

/// The message shown when the next day is asked for on today's log.
pub open spec fn today_message() -> Seq<char> {
    "This is already today's log"@
}

/// The message shown where the calendar ends.
pub open spec fn range_message() -> Seq<char> {
    "Date out of range"@
}

/// The message shown for a search pattern that does not compile.
pub open spec fn pattern_message() -> Seq<char> {
    "Invalid search pattern"@
}

/// The message shown in verbose mode for a log file that is not there.
pub open spec fn missing_message(path: Seq<char>) -> Seq<char> {
    seq!['\''] + path + "' doesn't exist"@
}

/// The date with the given year, month and day.
pub open spec fn date_of(fields: (int, int, int)) -> Date {
    Date { year: fields.0 as i32, month: fields.1 as u32, day: fields.2 as u32 }
}

/// The text of a log file that may be missing.
pub open spec fn content_of(content: Option<&str>) -> Option<Seq<char>> {
    match content {
        Some(text) => Some(text@),
        None => None,
    }
}

/// The state of the pager as a mathematical value.
pub struct SingleDatePagerView {
    pub viewer: ViewerView,
    pub date: Date,
    pub verbose: bool,
    pub message: Seq<char>,
    pub message_is_error: bool,
    pub command_buffer: Seq<char>,
}

impl SingleDatePagerView {
    /// The viewer's invariant holds and the date is a day that exists.
    pub open spec fn wf(self) -> bool {
        self.viewer.wf() && self.date.wf()
    }

    /// The state without a message.
    pub open spec fn cleared(self) -> SingleDatePagerView {
        SingleDatePagerView { message: Seq::empty(), message_is_error: false, ..self }
    }

    /// The state with an error message.
    pub open spec fn with_error(self, message: Seq<char>) -> SingleDatePagerView {
        SingleDatePagerView { message, message_is_error: true, ..self }
    }

    /// The state with a message that is no error.
    pub open spec fn with_note(self, message: Seq<char>) -> SingleDatePagerView {
        SingleDatePagerView { message, message_is_error: false, ..self }
    }

    /// The state with another viewer.
    pub open spec fn with_viewer(self, viewer: ViewerView) -> SingleDatePagerView {
        SingleDatePagerView { viewer, ..self }
    }

    /// The state in another mode. What was typed is dropped.
    pub open spec fn in_mode(self, mode: PagerMode) -> SingleDatePagerView {
        SingleDatePagerView {
            viewer: self.viewer.in_mode(mode),
            command_buffer: Seq::empty(),
            ..self
        }
    }

    /// The state on another day, whose entries are still to be loaded.
    pub open spec fn dated(self, date: Date) -> SingleDatePagerView {
        SingleDatePagerView { date, viewer: self.viewer.unloaded(), ..self }
    }

    /// The state on another day, at the first line.
    pub open spec fn turned_to(self, date: Date) -> SingleDatePagerView {
        let fresh = self.dated(date);
        fresh.with_viewer(
            fresh.viewer.scrolled(crate::screen::ScreenView { anchor: 0, ..fresh.viewer.screen }),
        )
    }

    /// Whether the date is the last day of the calendar.
    pub open spec fn on_last_day(self) -> bool {
        self.date.year == MAX_YEAR && self.date.month == 12 && self.date.day == 31
    }

    /// Whether the date is the first day of the calendar.
    pub open spec fn on_first_day(self) -> bool {
        self.date.year == MIN_YEAR && self.date.month == 1 && self.date.day == 1
    }

    /// Whether the next day is refused: the date is today or behind today.
    pub open spec fn at_or_past(self, today: Date) -> bool {
        !comes_before(self.date.fields(), today.fields())
    }

    /// The state after the next day was asked for. Where the date is not
    /// before today, only a message appears: no day past today is shown.
    pub open spec fn after_next_day(self, today: Date) -> SingleDatePagerView {
        if self.at_or_past(today) {
            self.with_error(today_message())
        } else if self.on_last_day() {
            self.with_error(range_message())
        } else {
            self.turned_to(
                date_of(day_after(self.date.year as int, self.date.month as int, self.date.day as int)),
            )
        }
    }

    /// The state after the day before was asked for.
    pub open spec fn after_prev_day(self) -> SingleDatePagerView {
        if self.on_first_day() {
            self.with_error(range_message())
        } else {
            self.turned_to(
                date_of(day_before(self.date.year as int, self.date.month as int, self.date.day as int)),
            )
        }
    }

    /// The date that the command line sets, if it sets one: the line is the
    /// word `date` and one more word, which is a date.
    pub open spec fn date_set(self) -> Option<Date> {
        let words = split_words(self.command_buffer);
        if words.len() == 2 && words[0] == date_word() {
            match parsed_date(words[1]) {
                Some(fields) => Some(date_of(fields)),
                None => None,
            }
        } else {
            None
        }
    }

    /// The state after the command line was executed. `date` alone shows
    /// the date; `date` with a date sets it; everything else does nothing.
    /// Either way the view is entered.
    pub open spec fn after_command(self) -> SingleDatePagerView {
        let words = split_words(self.command_buffer);
        let done = self.in_mode(PagerMode::View);
        if words.len() == 1 && words[0] == date_word() {
            done.with_note(
                date_text(self.date.year as int, self.date.month as int, self.date.day as int),
            )
        } else {
            match self.date_set() {
                Some(date) => done.dated(date),
                None => done,
            }
        }
    }

    /// The state after a log file was loaded, or found missing.
    pub open spec fn after_load(self, path: Seq<char>, content: Option<Seq<char>>) -> SingleDatePagerView {
        match content {
            Some(text) => self.with_viewer(self.viewer.loaded(text)),
            None => {
                let empty = self.with_viewer(self.viewer.loaded(Seq::empty()));
                if self.verbose {
                    empty.with_error(missing_message(path))
                } else {
                    empty
                }
            },
        }
    }

    /// The state after an event of the view.
    pub open spec fn after_view_event(self, event: ViewEvent, today: Date) -> SingleDatePagerView {
        let s = self.cleared();
        let v = s.viewer;
        match event {
            ViewEvent::NextDay => s.after_next_day(today),
            ViewEvent::PrevDay => s.after_prev_day(),
            ViewEvent::NextLine => s.with_viewer(v.scrolled(v.screen.after_next_line())),
            ViewEvent::PrevLine => s.with_viewer(v.scrolled(v.screen.after_prev_line())),
            ViewEvent::GotoPageBegin => s.with_viewer(v.scrolled(v.screen.after_goto_begin())),
            ViewEvent::GotoPageEnd => s.with_viewer(v.scrolled(v.screen.after_goto_end())),
            ViewEvent::Quit => s.with_viewer(ViewerView { is_exit: true, ..v }),
            ViewEvent::Edit => s,
            ViewEvent::SearchNext => s.with_viewer(
                v.scrolled(v.screen.after_search_next(true, v.palette.marker@)),
            ),
            ViewEvent::SearchPrev => s.with_viewer(
                v.scrolled(v.screen.after_search_prev(v.palette.marker@)),
            ),
            ViewEvent::Resize(columns, rows) => s.with_viewer(v.resized(columns as nat, rows as nat)),
            ViewEvent::EnterCommandMode => s.in_mode(PagerMode::Command),
            ViewEvent::EnterSearchMode => s.in_mode(PagerMode::Search),
            ViewEvent::Ignored => s,
        }
    }

    /// What is to be done outside after an event of the view.
    pub open spec fn view_action(self, event: ViewEvent, today: Date) -> PagerAction {
        match event {
            ViewEvent::NextDay => if self.at_or_past(today) || self.on_last_day() {
                PagerAction::Redraw
            } else {
                PagerAction::Reload
            },
            ViewEvent::PrevDay => if self.on_first_day() {
                PagerAction::Redraw
            } else {
                PagerAction::Reload
            },
            ViewEvent::Quit => PagerAction::Quit,
            ViewEvent::Edit => PagerAction::Edit,
            _ => PagerAction::Redraw,
        }
    }

    /// The state after an event of the command line.
    pub open spec fn after_command_event(self, event: CommandEvent) -> SingleDatePagerView {
        let s = self.cleared();
        match event {
            CommandEvent::Execute => s.after_command(),
            CommandEvent::Char(c) => SingleDatePagerView {
                command_buffer: s.command_buffer.push(c),
                ..s
            },
            CommandEvent::Ignored => s,
            CommandEvent::Cancel => s.in_mode(PagerMode::View),
            CommandEvent::Backspace => if s.command_buffer.len() == 0 {
                s.in_mode(PagerMode::View)
            } else {
                SingleDatePagerView { command_buffer: s.command_buffer.drop_last(), ..s }
            },
            CommandEvent::ClearLine => SingleDatePagerView { command_buffer: Seq::empty(), ..s },
        }
    }

    /// What is to be done outside after an event of the command line.
    pub open spec fn command_action(self, event: CommandEvent) -> PagerAction {
        if event == CommandEvent::Execute && self.date_set() is Some {
            PagerAction::Reload
        } else {
            PagerAction::Redraw
        }
    }

    /// The state after an event of the search line. A pattern that does not
    /// compile leaves a message.
    pub open spec fn after_search_event(self, event: SearchEvent) -> SingleDatePagerView {
        let s = self.cleared();
        let next = s.with_viewer(s.viewer.after_search_event(event));
        if event == SearchEvent::Confirm && !pattern_compiles(s.viewer.search_input) {
            next.with_error(pattern_message())
        } else {
            next
        }
    }

    /// The state after an event of the terminal, read in the mode that the
    /// pager is in.
    pub open spec fn after_event(self, event: InputEvent, today: Date) -> SingleDatePagerView {
        match self.viewer.mode {
            PagerMode::View => self.after_view_event(view_event_of(event), today),
            PagerMode::Command => self.after_command_event(command_event_of(event)),
            PagerMode::Search => self.after_search_event(search_event_of(event)),
        }
    }

    /// What is to be done outside after an event of the terminal.
    pub open spec fn event_action(self, event: InputEvent, today: Date) -> PagerAction {
        match self.viewer.mode {
            PagerMode::View => self.view_action(view_event_of(event), today),
            PagerMode::Command => self.command_action(command_event_of(event)),
            PagerMode::Search => PagerAction::Redraw,
        }
    }
}

/// The pager over the entries of one day.
pub struct SingleDatePager {
    viewer: Viewer,
    date: Date,
    verbose: bool,
    bottom_message: String,
    bottom_message_is_error: bool,
    command_buffer: Vec<char>,
}

impl View for SingleDatePager {
    type V = SingleDatePagerView;

    closed spec fn view(&self) -> SingleDatePagerView {
        SingleDatePagerView {
            viewer: self.viewer@,
            date: self.date,
            verbose: self.verbose,
            message: self.bottom_message@,
            message_is_error: self.bottom_message_is_error,
            command_buffer: self.command_buffer@,
        }
    }
}

impl SingleDatePager {
    /// The pager's invariant.
    pub closed spec fn wf(&self) -> bool {
        self.viewer.wf() && self.date.wf()
    }

    /// The invariant says of the state what the state's own invariant says.
    pub proof fn lemma_wf(&self)
        requires
            self.wf(),
        ensures
            self@.wf(),
    {
    }

    /// A pager on `date`, in the view, without entries and without a
    /// message, for a terminal of the given size.
    pub fn new(date: Date, palette: Palette, cols: u16, rows: u16) -> (pager: Self)
        requires
            date.wf(),
        ensures
            pager.wf(),
            pager@.date == date,
            !pager@.verbose,
            pager@.message == Seq::<char>::empty(),
            !pager@.message_is_error,
            pager@.command_buffer == Seq::<char>::empty(),
            pager@.viewer.mode == PagerMode::View,
            !pager@.viewer.is_exit,
            pager@.viewer.entries.len() == 0,
            pager@.viewer.pattern is None,
            pager@.viewer.palette == palette,
            pager@.viewer.screen.anchor == 0,
            pager@.viewer.screen.cols == cols,
            pager@.viewer.screen.rows == rows,
    {
        SingleDatePager {
            viewer: Viewer::new(palette, cols, rows),
            date,
            verbose: false,
            bottom_message: String::new(),
            bottom_message_is_error: false,
            command_buffer: Vec::new(),
        }
    }

    /// Sets whether a missing log file is reported.
    pub fn set_verbose(&mut self, value: bool)
        requires
            old(self).wf(),
        ensures
            final(self).wf(),
            final(self)@ == (SingleDatePagerView { verbose: value, ..old(self)@ }),
    {
        self.verbose = value;
    }

    /// The day whose entries are on view.
    pub fn date(&self) -> (date: &Date)
        ensures
            *date == self@.date,
            self.wf() ==> date.wf(),
    {
        &self.date
    }

    /// The text of the date bar: the date and the short name of its day of
    /// the week.
    pub fn date_label(&self) -> (label: String)
        requires
            self.wf(),
        ensures
            label@ == label_text(self@.date),
    {
        date_label(&self.date)
    }

    /// The viewer: entries, lines, scroll state, search and mode.
    pub fn viewer(&self) -> (viewer: &Viewer)
        ensures
            viewer@ == self@.viewer,
            self.wf() ==> viewer.wf(),
    {
        &self.viewer
    }

    /// The message of the bottom line.
    pub fn bottom_message(&self) -> (message: &str)
        ensures
            message@ == self@.message,
    {
        self.bottom_message.as_str()
    }

    /// Whether the message of the bottom line is an error.
    pub fn bottom_message_is_error(&self) -> (b: bool)
        ensures
            b == self@.message_is_error,
    {
        self.bottom_message_is_error
    }

    /// The command that is being typed.
    pub fn command_buffer(&self) -> (s: String)
        ensures
            s@ == self@.command_buffer,
    {
        string_of(&self.command_buffer)
    }

    /// The number of rendered lines.
    pub fn total_content_lines(&self) -> (n: usize)
        ensures
            n == self@.viewer.screen.total(),
    {
        self.viewer.total_content_lines()
    }

    /// The lines on the page.
    pub fn page_range(&self) -> (r: Range)
        ensures
            r.wf(),
            r.begin == self@.viewer.screen.top(),
            r.end == self@.viewer.screen.page_end(),
    {
        self.viewer.page_range()
    }

    /// Shows an error in the bottom line.
    pub fn show_error_message(&mut self, msg: &str)
        requires
            old(self).wf(),
        ensures
            final(self).wf(),
            final(self)@ == old(self)@.with_error(msg@),
    {
        self.bottom_message = msg.to_owned();
        self.bottom_message_is_error = true;
    }

    /// Empties the bottom line.
    pub fn clear_error_message(&mut self)
        requires
            old(self).wf(),
        ensures
            final(self).wf(),
            final(self)@ == old(self)@.cleared(),
    {
        self.bottom_message = String::new();
        self.bottom_message_is_error = false;
    }

    /// Turns to the next day, seen from `today`. Where the date is today or
    /// behind today, the date stays and a message says so: no day past today
    /// is shown. The entries of the new day are still to be loaded.
    pub fn next_day_on(&mut self, today: &Date) -> (action: PagerAction)
        requires
            old(self).wf(),
        ensures
            final(self).wf(),
            final(self)@ == old(self)@.after_next_day(*today),
            old(self)@.at_or_past(*today) ==> final(self)@ == old(self)@.with_error(today_message())
                && final(self)@.date == old(self)@.date && action == PagerAction::Redraw,
            action == if old(self)@.at_or_past(*today) || old(self)@.on_last_day() {
                PagerAction::Redraw
            } else {
                PagerAction::Reload
            },
    {
        if !self.date.is_before(today) {
            self.show_error_message("This is already today's log");
            return PagerAction::Redraw;
        }
        match add_one_day(&self.date) {
            Some(date) => {
                self.turn_to(date);
                PagerAction::Reload
            },
            None => {
                self.show_error_message("Date out of range");
                PagerAction::Redraw
            },
        }
    }

    /// Turns to the next day, seen from today's date on the local clock.
    pub fn next_day(&mut self) -> (action: PagerAction)
        requires
            old(self).wf(),
        ensures
            final(self).wf(),
            exists|today: Date|
                today.wf() && final(self)@ == old(self)@.after_next_day(today) && action == (if old(
                    self,
                )@.at_or_past(today) || old(self)@.on_last_day() {
                    PagerAction::Redraw
                } else {
                    PagerAction::Reload
                }),
    {
        let today = get_today_date();
        self.next_day_on(&today)
    }

    /// Turns to the day before. The entries of the new day are still to be
    /// loaded.
    pub fn prev_day(&mut self) -> (action: PagerAction)
        requires
            old(self).wf(),
        ensures
            final(self).wf(),
            final(self)@ == old(self)@.after_prev_day(),
            action == if old(self)@.on_first_day() {
                PagerAction::Redraw
            } else {
                PagerAction::Reload
            },
    {
        match sub_one_day(&self.date) {
            Some(date) => {
                self.turn_to(date);
                PagerAction::Reload
            },
            None => {
                self.show_error_message("Date out of range");
                PagerAction::Redraw
            },
        }
    }

    fn turn_to(&mut self, date: Date)
        requires
            old(self).wf(),
            date.wf(),
        ensures
            final(self).wf(),
            final(self)@ == old(self)@.turned_to(date),
    {
        self.date = date;
        self.viewer.clear_content();
        self.viewer.reset_anchor();
    }

    /// Scrolls down by one line, unless the last line is on the page.
    pub fn next_line(&mut self)
        requires
            old(self).wf(),
        ensures
            final(self).wf(),
            final(self)@ == old(self)@.with_viewer(
                old(self)@.viewer.scrolled(old(self)@.viewer.screen.after_next_line()),
            ),
    {
        self.viewer.next_line();
    }

    /// Scrolls up by one line, unless the first line is on top.
    pub fn prev_line(&mut self)
        requires
            old(self).wf(),
        ensures
            final(self).wf(),
            final(self)@ == old(self)@.with_viewer(
                old(self)@.viewer.scrolled(old(self)@.viewer.screen.after_prev_line()),
            ),
    {
        self.viewer.prev_line();
    }

    /// Takes the text of the log file of the pager's date, or the news that
    /// there is none, which verbose mode reports with the file's path.
    pub fn update_log_items(&mut self, file_path: &str, file_content: Option<&str>)
        requires
            old(self).wf(),
        ensures
            final(self).wf(),
            final(self)@ == old(self)@.after_load(file_path@, content_of(file_content)),
    {
        match file_content {
            Some(text) => {
                self.viewer.set_content(text);
            },
            None => {
                self.viewer.set_content("");
                proof {
                    reveal_strlit("");
                    assert(""@ =~= Seq::<char>::empty());
                }
                if self.verbose {
                    let mut message: Vec<char> = Vec::new();
                    message.push('\'');
                    let path = to_chars(file_path);
                    push_all(&mut message, &path);
                    let tail = to_chars("' doesn't exist");
                    push_all(&mut message, &tail);
                    assert(message@ =~= missing_message(file_path@));
                    let message = string_of(&message);
                    self.show_error_message(message.as_str());
                }
            },
        }
    }

    /// Executes the command line and enters the view.
    pub fn execute_command(&mut self) -> (action: PagerAction)
        requires
            old(self).wf(),
        ensures
            final(self).wf(),
            final(self)@ == old(self)@.after_command(),
            action == if old(self)@.date_set() is Some {
                PagerAction::Reload
            } else {
                PagerAction::Redraw
            },
    {
        let typed = string_of(&self.command_buffer);
        let command = match Command::from_str(typed.as_str()) {
            Ok(command) => command,
            Err(_) => Command::NoOp,
        };
        self.command_buffer.clear();
        self.viewer.enter_mode(PagerMode::View);
        match command {
            Command::NoOp => PagerAction::Redraw,
            Command::ShowDate => {
                self.bottom_message = format_date(&self.date);
                self.bottom_message_is_error = false;
                PagerAction::Redraw
            },
            Command::SetDate(date_str) => {
                match parse_date(date_str.as_str()) {
                    Some(date) => {
                        assert(date == date_of(date.fields()));
                        self.date = date;
                        self.viewer.clear_content();
                        PagerAction::Reload
                    },
                    None => PagerAction::Redraw,
                }
            },
        }
    }

    /// Takes an event of the view.
    pub fn handle_view_event(&mut self, event: ViewEvent, today: &Date) -> (action: PagerAction)
        requires
            old(self).wf(),
        ensures
            final(self).wf(),
            final(self)@ == old(self)@.after_view_event(event, *today),
            action == old(self)@.view_action(event, *today),
    {
        self.clear_error_message();
        match event {
            ViewEvent::NextDay => self.next_day_on(today),
            ViewEvent::PrevDay => self.prev_day(),
            ViewEvent::NextLine => {
                self.viewer.next_line();
                PagerAction::Redraw
            },
            ViewEvent::PrevLine => {
                self.viewer.prev_line();
                PagerAction::Redraw
            },
            ViewEvent::GotoPageBegin => {
                self.viewer.goto_page_begin();
                PagerAction::Redraw
            },
            ViewEvent::GotoPageEnd => {
                self.viewer.goto_page_end();
                PagerAction::Redraw
            },
            ViewEvent::Quit => {
                self.viewer.exit();
                PagerAction::Quit
            },
            ViewEvent::Edit => PagerAction::Edit,
            ViewEvent::SearchNext => {
                self.viewer.search_next(true);
                PagerAction::Redraw
            },
            ViewEvent::SearchPrev => {
                self.viewer.search_prev();
                PagerAction::Redraw
            },
            ViewEvent::Resize(columns, rows) => {
                self.viewer.resize(columns, rows);
                PagerAction::Redraw
            },
            ViewEvent::EnterCommandMode => {
                self.enter_mode(PagerMode::Command);
                PagerAction::Redraw
            },
            ViewEvent::EnterSearchMode => {
                self.enter_mode(PagerMode::Search);
                PagerAction::Redraw
            },
            ViewEvent::Ignored => PagerAction::Redraw,
        }
    }

    /// Enters a mode, and drops what was typed.
    pub fn enter_mode(&mut self, mode: PagerMode)
        requires
            old(self).wf(),
        ensures
            final(self).wf(),
            final(self)@ == old(self)@.in_mode(mode),
    {
        self.command_buffer.clear();
        self.viewer.enter_mode(mode);
    }

    /// Takes an event of the command line.
    pub fn handle_command_event(&mut self, event: CommandEvent) -> (action: PagerAction)
        requires
            old(self).wf(),
        ensures
            final(self).wf(),
            final(self)@ == old(self)@.after_command_event(event),
            action == old(self)@.command_action(event),
    {
        self.clear_error_message();
        match event {
            CommandEvent::Execute => {
                return self.execute_command();
            },
            CommandEvent::Char(c) => {
                self.command_buffer.push(c);
            },
            CommandEvent::Ignored => {},
            CommandEvent::Cancel => {
                self.enter_mode(PagerMode::View);
            },
            CommandEvent::Backspace => {
                if self.command_buffer.len() == 0 {
                    self.enter_mode(PagerMode::View);
                } else {
                    self.command_buffer.pop();
                }
            },
            CommandEvent::ClearLine => {
                self.command_buffer.clear();
            },
        }
        PagerAction::Redraw
    }

    /// Takes an event of the search line.
    pub fn handle_search_event(&mut self, event: SearchEvent) -> (action: PagerAction)
        requires
            old(self).wf(),
        ensures
            final(self).wf(),
            final(self)@ == old(self)@.after_search_event(event),
            action == PagerAction::Redraw,
    {
        self.clear_error_message();
        match self.viewer.handle_search_event(event) {
            Ok(_) => {},
            Err(_) => {
                self.show_error_message("Invalid search pattern");
            },
        }
        PagerAction::Redraw
    }

    /// Takes an event of the terminal, reads it in the mode that the pager
    /// is in, and says what is to be done outside.
    pub fn handle_event(&mut self, event: InputEvent, today: &Date) -> (action: PagerAction)
        requires
            old(self).wf(),
        ensures
            final(self).wf(),
            final(self)@ == old(self)@.after_event(event, *today),
            action == old(self)@.event_action(event, *today),
    {
        match self.viewer.mode() {
            PagerMode::View => self.handle_view_event(ViewEvent::from_crossterm_event(event), today),
            PagerMode::Command => self.handle_command_event(
                CommandEvent::from_crossterm_event(event),
            ),
            PagerMode::Search => self.handle_search_event(SearchEvent::from_crossterm_event(event)),
        }
    }
}

impl Pager for SingleDatePager {
    open spec fn pager_lines(&self) -> Seq<Seq<char>> {
        self@.viewer.screen.lines
    }

    open spec fn pager_anchor(&self) -> nat {
        self@.viewer.screen.anchor
    }

    open spec fn pager_wf(&self) -> bool {
        self.wf()
    }

    fn begin_line_index(&self) -> (line: usize) {
        self.viewer.screen().begin_line_index()
    }

    fn colored_lines(&self) -> (lines: &Vec<String>) {
        self.viewer.screen().lines()
    }

    fn set_begin_line_index(&mut self, line_index: usize) {
        self.viewer.set_begin_line_index(line_index);
    }
}

} // verus!
