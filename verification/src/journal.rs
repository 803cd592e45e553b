//! What the diary decides before a pager starts or an entry is written:
//! which day is meant, what to show, and what text was composed.

use vstd::prelude::*;
use crate::text::{
    is_space, lines, push_all, rows, skip_space_from, split_lines, string_of, to_chars,
    trim_bounds, trim_begin, trim_end, is_whitespace,
};
use crate::time::{chrono_parse_date, format_year, parsed_ymd, year_text, Date};

verus! {

/// Why a typed text names no day.
#[derive(Debug, PartialEq, Eq)]
pub struct DateError {
    /// What `chrono` says of the text behind the year of today.
    pub message: String,
}

/// Why nothing can be shown.
#[derive(Debug, PartialEq, Eq)]
pub enum ViewError {
    /// The log directory is not there.
    LogDirNotFound,
    /// The text is no date, neither alone nor behind this year.
    DateParse {
        /// The text that was typed.
        input: String,
        /// What `chrono` says of it.
        message: String,
    },
}

/// What is to be shown.
#[derive(Debug, PartialEq, Eq, Structural, Clone, Copy)]
pub enum ViewTarget {
    /// The entries of all days in one buffer.
    All,
    /// The entries of one day.
    Day(Date),
}

/// A date typed without its year: the year of today, a hyphen and the text.
pub open spec fn with_year_of(today: Date, text: Seq<char>) -> Seq<char> {
    year_text(today) + seq!['-'] + text
}

/// The day that a typed date names: the text itself where it is a date, or
/// else the text behind the year of today.
pub open spec fn typed_date(text: Seq<char>, today: Date) -> Option<(int, int, int)> {
    match parsed_ymd(text) {
        Some(fields) => Some(fields),
        None => parsed_ymd(with_year_of(today, text)),
    }
}

/// Reads a date that was typed with or without its year. The error holds
/// what `chrono` says of the text behind the year of today.
pub fn parse_date_from_str(date_str: &str, today: &Date) -> (r: Result<Date, DateError>)
    requires
        today.wf(),
    ensures
        match r {
            Ok(date) => date.wf() && typed_date(date_str@, *today) == Some(date.fields()),
            Err(e) => typed_date(date_str@, *today) is None,
        },
{
    match chrono_parse_date(date_str, "%Y-%m-%d") {
        Ok(date) => Ok(date),
        Err(_) => {
            let mut longer = to_chars(format_year(today).as_str());
            longer.push('-');
            let typed = to_chars(date_str);
            push_all(&mut longer, &typed);
            assert(longer@ =~= with_year_of(*today, date_str@));
            match chrono_parse_date(string_of(&longer).as_str(), "%Y-%m-%d") {
                Ok(date) => Ok(date),
                Err(message) => Err(DateError { message }),
            }
        },
    }
}

/// What to show for the arguments of the command line. Without the log
/// directory nothing is shown, whatever the arguments are. With it: all
/// days where that is asked for, else the day that was typed, else today.
pub fn view_target(log_dir_exists: bool, date_str: Option<&str>, all: bool, today: &Date) -> (r:
    Result<ViewTarget, ViewError>)
    requires
        today.wf(),
    ensures
        !log_dir_exists ==> r == Err::<ViewTarget, ViewError>(ViewError::LogDirNotFound),
        log_dir_exists && all ==> r == Ok::<ViewTarget, ViewError>(ViewTarget::All),
        log_dir_exists && !all && date_str is None ==> r == Ok::<ViewTarget, ViewError>(
            ViewTarget::Day(*today),
        ),
        log_dir_exists && !all && date_str is Some ==> match r {
            Ok(target) => target is Day && target->Day_0.wf() && typed_date(date_str->0@, *today)
                == Some(target->Day_0.fields()),
            Err(e) => typed_date(date_str->0@, *today) is None && e is DateParse
                && e->DateParse_input@ == date_str->0@,
        },
{
    if !log_dir_exists {
        return Err(ViewError::LogDirNotFound);
    }
    if all {
        return Ok(ViewTarget::All);
    }
    match date_str {
        Some(text) => match parse_date_from_str(text, today) {
            Ok(date) => Ok(ViewTarget::Day(date)),
            Err(e) => Err(ViewError::DateParse { input: text.to_owned(), message: e.message }),
        },
        None => Ok(ViewTarget::Day(*today)),
    }
}

/// Whether a line is a comment of the message template: its first
/// character that is not whitespace is `#`.
pub open spec fn is_comment(line: Seq<char>) -> bool {
    skip_space_from(line, 0) < line.len() && line[skip_space_from(line, 0)] == '#'
}

/// The first `n` lines without the comments, each line that is kept behind
/// a line feed but the first that is kept.
pub open spec fn kept_lines(lines: Seq<Seq<char>>, n: int) -> Seq<char>
    decreases n,
{
    if n <= 0 {
        Seq::empty()
    } else if is_comment(lines[n - 1]) {
        kept_lines(lines, n - 1)
    } else if kept_count(lines, n - 1) == 0 {
        lines[n - 1]
    } else {
        kept_lines(lines, n - 1) + seq!['\n'] + lines[n - 1]
    }
}

/// The number of lines among the first `n` that are no comments.
pub open spec fn kept_count(lines: Seq<Seq<char>>, n: int) -> nat
    decreases n,
{
    if n <= 0 {
        0
    } else if is_comment(lines[n - 1]) {
        kept_count(lines, n - 1)
    } else {
        kept_count(lines, n - 1) + 1
    }
}

/// A composed message without the comment lines of its template.
pub open spec fn without_comments(text: Seq<char>) -> Seq<char> {
    kept_lines(split_lines(text), split_lines(text).len() as int)
}

/// Drops the lines of a composed message that are comments, and joins the
/// others with line feeds.
pub fn strip_comment_lines(text: &str) -> (r: String)
    ensures
        r@ == without_comments(text@),
{
    let v = to_chars(text);
    let ls = lines(&v);
    let mut out: Vec<char> = Vec::new();
    let mut kept: usize = 0;
    let mut i: usize = 0;
    while i < ls.len()
        invariant
            i <= ls.len(),
            kept <= i,
            kept == kept_count(rows(ls@), i as int),
            out@ == kept_lines(rows(ls@), i as int),
        decreases ls.len() - i,
    {
        let line = &ls[i];
        assert(rows(ls@)[i as int] == line@);
        let mut at: usize = 0;
        while at < line.len() && is_whitespace(line[at])
            invariant
                at <= line.len(),
                skip_space_from(line@, at as int) == skip_space_from(line@, 0),
            decreases line.len() - at,
        {
            at += 1;
        }
        if at < line.len() && line[at] == '#' {
        } else {
            if kept > 0 {
                out.push('\n');
                push_all(&mut out, line);
            } else {
                push_all(&mut out, line);
                assert(out@ =~= line@) by {
                    lemma_nothing_kept(rows(ls@), i as int);
                }
            }
            kept += 1;
        }
        i += 1;
    }
    string_of(&out)
}

/// Where no line was kept, no character was kept.
pub proof fn lemma_nothing_kept(lines: Seq<Seq<char>>, n: int)
    requires
        kept_count(lines, n) == 0,
    ensures
        kept_lines(lines, n).len() == 0,
    decreases n,
{
    if n > 0 {
        if is_comment(lines[n - 1]) {
            lemma_nothing_kept(lines, n - 1);
        }
    }
}

/// Whether a message holds nothing but whitespace.
pub fn is_blank(text: &str) -> (b: bool)
    ensures
        b == (trim_begin(text@) == trim_end(text@)),
        b == forall|i: int| 0 <= i < text@.len() ==> is_space(#[trigger] text@[i]),
{
    let v = to_chars(text);
    let (a, b) = trim_bounds(&v);
    proof {
        crate::text::lemma_skip_bounds(v@, 0, v@.len() as int);
        crate::text::lemma_skip_bounds(v@, trim_begin(v@), v@.len() as int);
    }
    a == b
}

} // verus!
