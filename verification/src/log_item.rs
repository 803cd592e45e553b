//! Diary entries and the text of a log file.
//!
//! A log file is a sequence of records. A record is a line that begins with a
//! time stamp in square brackets, followed by the entry's text, which may run
//! over further lines.

use vstd::prelude::*;
use crate::text::{
    is_trimmed, lemma_next_index_of, lemma_trimmed, lines, next_index_of, find_char, push_all, rows, slice_chars,
    split_lines, string_of, to_chars, trim_bounds, trimmed,
};
use crate::round_trip::{lemma_round_trip, round_trips, stamp_round_trips};
use crate::time::{date_time_text, format_date_time, parse_date_time, parsed_date_time, Timestamp};

verus! {

/// Why a text is not a record.
#[derive(Debug, PartialEq, Eq, Structural, Clone, Copy)]
pub enum ParseError {
    /// The text does not begin with a time stamp in square brackets.
    DateNotFound,
}

/// An entry as a mathematical value: the fields of its time stamp, and its text.
pub type EntryModel = ((int, int, int, int, int), Seq<char>);

/// What a text holds when read as one record: the time stamp between the
/// opening bracket at its start and the first closing bracket, and the
/// trimmed rest. Nothing where the text does not begin with such a stamp.
pub open spec fn parse_record(s: Seq<char>) -> Option<EntryModel> {
    let close = next_index_of(s, ']', 0);
    if s.len() > 0 && s[0] == '[' && close < s.len() {
        match parsed_date_time(s.subrange(1, close)) {
            Some(stamp) => Some((stamp, trimmed(s.subrange(close + 1, s.len() as int)))),
            None => None,
        }
    } else {
        None
    }
}

/// The record of an entry in a log file.
pub open spec fn record_text(entry: EntryModel) -> Seq<char> {
    seq!['['] + date_time_text(entry.0.0, entry.0.1, entry.0.2, entry.0.3, entry.0.4) + seq![
        ']',
        ' ',
    ] + entry.1 + seq!['\n']
}

/// The text of a log file that holds the given entries.
pub open spec fn file_text(entries: Seq<EntryModel>) -> Seq<char>
    decreases entries.len(),
{
    if entries.len() == 0 {
        Seq::empty()
    } else {
        file_text(entries.drop_last()) + record_text(entries.last())
    }
}

/// One step of reading a log file line by line. The state is the entries
/// found so far and the text that is being gathered. A line that is no record
/// is added to that text behind a line feed. A line that is a record closes
/// the gathered text and begins the next one: the gathered text becomes an
/// entry where it is a record, and is dropped where it is none, as text
/// before the first record is.
pub open spec fn read_line(state: (Seq<EntryModel>, Seq<char>), line: Seq<char>) -> (
    Seq<EntryModel>,
    Seq<char>,
) {
    let (entries, current) = state;
    if current.len() == 0 {
        (entries, line)
    } else if parse_record(line) is None {
        (entries, current + seq!['\n'] + line)
    } else if parse_record(current) is Some {
        (entries.push(parse_record(current)->0), line)
    } else {
        (entries, line)
    }
}

/// The state after reading all of `lines`, one after the other.
pub open spec fn read_lines(state: (Seq<EntryModel>, Seq<char>), lines: Seq<Seq<char>>) -> (
    Seq<EntryModel>,
    Seq<char>,
)
    decreases lines.len(),
{
    if lines.len() == 0 {
        state
    } else {
        read_lines(read_line(state, lines.first()), lines.drop_first())
    }
}

/// The entries at the end of the input: those found, and the gathered text
/// where it is a record.
pub open spec fn finish_reading(state: (Seq<EntryModel>, Seq<char>)) -> Seq<EntryModel> {
    let (entries, current) = state;
    if current.len() > 0 && parse_record(current) is Some {
        entries.push(parse_record(current)->0)
    } else {
        entries
    }
}

/// The entries that the text of a log file holds.
pub open spec fn parse_entries(s: Seq<char>) -> Seq<EntryModel> {
    finish_reading(read_lines((Seq::empty(), Seq::empty()), split_lines(s)))
}

/// One timestamped entry of the diary.
#[derive(Debug)]
pub struct LogItem {
    date_time: Timestamp,
    content: String,
}

/// The entries of one or more log files, in the order of the text.
pub struct LogItemList {
    items: Vec<LogItem>,
}

/// The entries of a list of items as mathematical values.
pub open spec fn models(items: Seq<LogItem>) -> Seq<EntryModel> {
    Seq::new(items.len(), |i: int| items[i].model())
}

/// Every item of the list is well formed.
pub open spec fn all_wf(items: Seq<LogItem>) -> bool {
    forall|i: int| 0 <= i < items.len() ==> (#[trigger] items[i]).wf()
}

impl LogItem {
    /// The time stamp of the entry.
    pub closed spec fn stamp(&self) -> Timestamp {
        self.date_time
    }

    /// The text of the entry.
    pub closed spec fn text(&self) -> Seq<char> {
        self.content@
    }

    /// The entry as a mathematical value.
    pub open spec fn model(&self) -> EntryModel {
        (self.stamp().fields(), self.text())
    }

    /// The time stamp is valid and the text is trimmed.
    pub open spec fn wf(&self) -> bool {
        self.stamp().wf() && is_trimmed(self.text())
    }

    /// The entry of the given minute, with `content` trimmed as its text.
    pub fn new(date_time: Timestamp, content: &str) -> (item: Self)
        requires
            date_time.wf(),
        ensures
            item.wf(),
            item.stamp() == date_time,
            item.text() == trimmed(content@),
    {
        let v = to_chars(content);
        let (a, b) = trim_bounds(&v);
        proof {
            lemma_trimmed(v@);
        }
        Self { date_time, content: crate::text::to_string(&v, a, b) }
    }

    /// The time stamp of the entry.
    pub fn date_time(&self) -> (t: &Timestamp)
        ensures
            *t == self.stamp(),
    {
        &self.date_time
    }

    /// The text of the entry.
    pub fn content(&self) -> (s: &str)
        ensures
            s@ == self.text(),
    {
        self.content.as_str()
    }

    /// Reads `s` as one record.
    pub fn from_str(s: &str) -> (r: Result<Self, ParseError>)
        ensures
            match r {
                Ok(item) => item.wf() && parse_record(s@) == Some(item.model()),
                Err(e) => parse_record(s@) is None,
            },
    {
        let v = to_chars(s);
        match Self::from_chars(&v) {
            Some(item) => Ok(item),
            None => Err(ParseError::DateNotFound),
        }
    }

    /// Reads the characters `v` as one record.
    pub fn from_chars(v: &Vec<char>) -> (r: Option<Self>)
        ensures
            match r {
                Some(item) => item.wf() && parse_record(v@) == Some(item.model()),
                None => parse_record(v@) is None,
            },
    {
        let close = find_char(v, ']', 0);
        if close >= v.len() {
            return None;
        }
        if v[0] != '[' {
            return None;
        }
        proof {
            lemma_next_index_of(v@, ']', 0);
        }
        let date_str = crate::text::to_string(v, 1, close);
        match parse_date_time(date_str.as_str()) {
            Some(date_time) => {
                let rest = slice_chars(v, close + 1, v.len());
                let (a, b) = trim_bounds(&rest);
                proof {
                    lemma_trimmed(rest@);
                }
                Some(Self { date_time, content: crate::text::to_string(&rest, a, b) })
            },
            None => None,
        }
    }

    /// The record of the entry: its time stamp in square brackets, a space,
    /// its text and a line feed. The time stamp is printed so that it is
    /// parsed back to the same minute.
    pub fn to_string(&self) -> (s: String)
        requires
            self.wf(),
        ensures
            s@ == record_text(self.model()),
            stamp_round_trips(self.model()),
    {
        let mut out: Vec<char> = Vec::new();
        out.push('[');
        let stamp = to_chars(format_date_time(&self.date_time).as_str());
        push_all(&mut out, &stamp);
        out.push(']');
        out.push(' ');
        let body = to_chars(self.content.as_str());
        push_all(&mut out, &body);
        out.push('\n');
        assert(out@ =~= record_text(self.model()));
        string_of(&out)
    }
}

impl LogItemList {
    /// The entries of the list as mathematical values.
    pub closed spec fn entries(&self) -> Seq<EntryModel> {
        models(self.items@)
    }

    /// Every entry of the list is well formed.
    pub closed spec fn wf(&self) -> bool {
        all_wf(self.items@)
    }

    /// The list without entries.
    pub fn new() -> (list: Self)
        ensures
            list.wf(),
            list.entries() == Seq::<EntryModel>::empty(),
    {
        let list = Self { items: Vec::new() };
        assert(list.entries() =~= Seq::<EntryModel>::empty());
        list
    }

    /// Adds an entry at the end of the list.
    pub fn push(&mut self, item: LogItem)
        requires
            old(self).wf(),
            item.wf(),
        ensures
            final(self).wf(),
            final(self).entries() == old(self).entries().push(item.model()),
    {
        self.items.push(item);
        assert(models(self.items@) =~= models(old(self).items@).push(item.model()));
    }

    /// The entries of the list, in order.
    pub fn items(&self) -> (items: &Vec<LogItem>)
        ensures
            models(items@) == self.entries(),
            all_wf(items@) == self.wf(),
    {
        &self.items
    }

    /// The number of entries.
    pub fn len(&self) -> (n: usize)
        ensures
            n == self.entries().len(),
    {
        self.items.len()
    }

    /// Reads the text of a log file. Every text is accepted: what is no
    /// record is part of the entry before it.
    pub fn from_str(s: &str) -> (r: Result<Self, ()>)
        ensures
            r is Ok,
            r->Ok_0.wf(),
            r->Ok_0.entries() == parse_entries(s@),
    {
        let v = to_chars(s);
        let ls = lines(&v);
        let ghost all = rows(ls@);
        let mut log_items: Vec<LogItem> = Vec::new();
        let mut current_log: Vec<char> = Vec::new();
        let mut i: usize = 0;
        assert(all.subrange(0, all.len() as int) =~= all);
        assert(models(log_items@) =~= Seq::<EntryModel>::empty());
        while i < ls.len()
            invariant
                i <= ls.len(),
                all == rows(ls@),
                all == split_lines(s@),
                all_wf(log_items@),
                read_lines((models(log_items@), current_log@), all.subrange(i as int, all.len() as int))
                    == read_lines((Seq::empty(), Seq::empty()), all),
            decreases ls.len() - i,
        {
            let ghost state = (models(log_items@), current_log@);
            let ghost rest = all.subrange(i as int, all.len() as int);
            proof {
                assert(rest.first() == ls@[i as int]@);
                assert(rest.drop_first() =~= all.subrange(i + 1, all.len() as int));
            }
            let line = &ls[i];
            if current_log.len() == 0 {
                assert(current_log@ + line@ =~= line@);
            } else if LogItem::from_chars(line).is_none() {
                current_log.push('\n');
                assert(current_log@ + line@ =~= state.1 + seq!['\n'] + line@);
            } else {
                match LogItem::from_chars(&current_log) {
                    Some(parsed_item) => {
                        log_items.push(parsed_item);
                        assert(models(log_items@) =~= state.0.push(parse_record(state.1)->0));
                    },
                    None => {},
                }
                current_log.clear();
                assert(current_log@ + line@ =~= line@);
            }
            push_all(&mut current_log, line);
            assert((models(log_items@), current_log@) == read_line(state, line@));
            i += 1;
        }
        let ghost state = (models(log_items@), current_log@);
        assert(all.subrange(i as int, all.len() as int) =~= Seq::<Seq<char>>::empty());
        if current_log.len() == 0 {
        } else {
            match LogItem::from_chars(&current_log) {
                Some(parsed_item) => {
                    log_items.push(parsed_item);
                    assert(models(log_items@) =~= state.0.push(parse_record(state.1)->0));
                },
                None => {},
            }
        }
        Ok(LogItemList { items: log_items })
    }

    /// The text of a log file that holds the entries of the list. Reading
    /// that text gives the same entries back, where every text of the list
    /// is one that a log file gives back: none of its lines ends with a
    /// carriage return, and none of its lines but the first is a record.
    pub fn render_to_file(&self) -> (s: String)
        requires
            self.wf(),
        ensures
            s@ == file_text(self.entries()),
            round_trips(self.entries()) ==> parse_entries(s@) == self.entries(),
    {
        let mut out: Vec<char> = Vec::new();
        let mut i: usize = 0;
        let ghost all = models(self.items@);
        while i < self.items.len()
            invariant
                i <= self.items.len(),
                all == models(self.items@),
                all_wf(self.items@),
                out@ == file_text(all.subrange(0, i as int)),
                forall|j: int| 0 <= j < i ==> stamp_round_trips(#[trigger] all[j]),
            decreases self.items.len() - i,
        {
            let record = to_chars(self.items[i].to_string().as_str());
            push_all(&mut out, &record);
            proof {
                assert(all.subrange(0, i + 1).drop_last() =~= all.subrange(0, i as int));
            }
            i += 1;
        }
        assert(all.subrange(0, all.len() as int) =~= all);
        proof {
            if round_trips(all) {
                lemma_round_trip(all);
            }
        }
        string_of(&out)
    }
}

} // verus!
