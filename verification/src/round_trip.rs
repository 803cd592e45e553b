//! Why a log file that was written from entries is read back as the same
//! entries.

use vstd::prelude::*;
use crate::log_item::{
    file_text, parse_entries, parse_record, read_line, read_lines, record_text,
    EntryModel,
};
use crate::text::{
    is_space, is_trimmed, lemma_next_index_of, lemma_next_index_of_is, lemma_skip_bounds,
    lines_from, next_index_of, split_lines, strip_cr, trimmed,
};
use crate::time::{date_time_text, is_stamp_text, parsed_date_time};

verus! {

/// The printed time stamp of an entry.
pub open spec fn stamp_of(entry: EntryModel) -> Seq<char> {
    date_time_text(entry.0.0, entry.0.1, entry.0.2, entry.0.3, entry.0.4)
}

/// The length of the printed time stamp of an entry.
pub open spec fn stamp_len(entry: EntryModel) -> int {
    stamp_of(entry).len() as int
}

/// The record of an entry without the line feed at its end.
pub open spec fn head_text(entry: EntryModel) -> Seq<char> {
    seq!['['] + stamp_of(entry) + seq![']', ' '] + entry.1
}

/// No line of the text ends with a carriage return before its line feed.
pub open spec fn no_crlf(text: Seq<char>) -> bool {
    forall|i: int| 0 < i < text.len() && #[trigger] text[i] == '\n' ==> text[i - 1] != '\r'
}

/// No line of the text but the first is a record by itself.
pub open spec fn no_record_inside(text: Seq<char>) -> bool {
    forall|i: int|
        0 <= i < text.len() && #[trigger] text[i] == '\n' ==> parse_record(
            text.subrange(i + 1, next_index_of(text, '\n', i + 1)),
        ) is None
}

/// The text of an entry that a log file gives back as it is: it is trimmed,
/// none of its lines ends with a carriage return, and none of its lines but
/// the first is a record by itself.
pub open spec fn body_round_trips(text: Seq<char>) -> bool {
    is_trimmed(text) && no_crlf(text) && no_record_inside(text)
}

/// The printed time stamp of the entry is made of the characters of a time
/// stamp and is parsed back to the entry's minute.
pub open spec fn stamp_round_trips(entry: EntryModel) -> bool {
    is_stamp_text(stamp_of(entry)) && parsed_date_time(stamp_of(entry)) == Some(entry.0)
}

/// Every text of the entries is given back as it is.
pub open spec fn round_trips(entries: Seq<EntryModel>) -> bool {
    forall|i: int| 0 <= i < entries.len() ==> body_round_trips((#[trigger] entries[i]).1)
}

/// Every time stamp of the entries is parsed back.
pub open spec fn stamps_round_trip(entries: Seq<EntryModel>) -> bool {
    forall|i: int| 0 <= i < entries.len() ==> stamp_round_trips(#[trigger] entries[i])
}

/// The first occurrence of a character behind a prefix is where it is in
/// what follows the prefix.
pub proof fn lemma_next_index_of_shift(a: Seq<char>, b: Seq<char>, c: char, k: int)
    requires
        0 <= k <= b.len(),
    ensures
        next_index_of(a + b, c, a.len() + k) == a.len() + next_index_of(b, c, k),
    decreases b.len() - k,
{
    if k < b.len() {
        assert((a + b)[a.len() + k] == b[k]);
        if b[k] != c {
            lemma_next_index_of_shift(a, b, c, k + 1);
        }
    }
}

/// The first occurrence of a character in a prefix is the first in the whole.
pub proof fn lemma_next_index_of_prefix(a: Seq<char>, b: Seq<char>, c: char, k: int)
    requires
        0 <= k <= a.len(),
        next_index_of(a, c, k) < a.len(),
    ensures
        next_index_of(a + b, c, k) == next_index_of(a, c, k),
    decreases a.len() - k,
{
    if k < a.len() {
        assert((a + b)[k] == a[k]);
        if a[k] != c {
            lemma_next_index_of_prefix(a, b, c, k + 1);
        }
    }
}

/// The lines behind a prefix are the lines of what follows the prefix.
pub proof fn lemma_lines_shift(a: Seq<char>, b: Seq<char>, k: int)
    requires
        0 <= k <= b.len(),
    ensures
        lines_from(a + b, a.len() + k) == lines_from(b, k),
    decreases b.len() - k,
{
    if k < b.len() {
        let s = a + b;
        lemma_next_index_of_shift(a, b, '\n', k);
        lemma_next_index_of(b, '\n', k);
        let end = next_index_of(b, '\n', k);
        if end >= b.len() {
            assert(s.subrange(a.len() + k, s.len() as int) =~= b.subrange(k, b.len() as int));
        } else {
            assert(s.subrange(a.len() + k, a.len() + end) =~= b.subrange(k, end));
            lemma_lines_shift(a, b, end + 1);
        }
    }
}

/// The lines of a text that ends with a line feed, followed by another
/// text, are the lines of the one and then the lines of the other.
pub proof fn lemma_lines_concat(a: Seq<char>, b: Seq<char>, from: int)
    requires
        0 <= from <= a.len(),
        a.len() > 0 ==> a.last() == '\n',
    ensures
        lines_from(a + b, from) == lines_from(a, from) + lines_from(b, 0),
    decreases a.len() - from,
{
    if from == a.len() {
        lemma_lines_shift(a, b, 0);
        assert(lines_from(a, from) + lines_from(b, 0) =~= lines_from(b, 0));
    } else {
        let s = a + b;
        lemma_next_index_of(a, '\n', from);
        let end = next_index_of(a, '\n', from);
        if end >= a.len() {
            assert(a[a.len() - 1] != '\n');
        }
        lemma_next_index_of_prefix(a, b, '\n', from);
        assert(s.subrange(from, end) =~= a.subrange(from, end));
        lemma_lines_concat(a, b, end + 1);
        assert(lines_from(s, from) =~= lines_from(a, from) + lines_from(b, 0));
    }
}

/// Reading the lines of two lists one after the other is reading the lines
/// of the one, and from there the lines of the other.
pub proof fn lemma_read_lines_concat(
    state: (Seq<EntryModel>, Seq<char>),
    first: Seq<Seq<char>>,
    second: Seq<Seq<char>>,
)
    ensures
        read_lines(state, first + second) == read_lines(read_lines(state, first), second),
    decreases first.len(),
{
    if first.len() == 0 {
        assert(first + second =~= second);
    } else {
        assert((first + second).first() == first.first());
        assert((first + second).drop_first() =~= first.drop_first() + second);
        lemma_read_lines_concat(read_line(state, first.first()), first.drop_first(), second);
    }
}

/// A trimmed text behind one space is what is left when the two are trimmed.
pub proof fn lemma_trimmed_behind_space(text: Seq<char>)
    requires
        is_trimmed(text),
    ensures
        trimmed(seq![' '] + text) == text,
{
    let u = seq![' '] + text;
    assert(is_space(u[0]));
    lemma_skip_bounds(u, 1, u.len() as int);
    if text.len() > 0 {
        assert(u[1] == text[0]);
        assert(u[u.len() - 1] == text.last());
    }
    assert(crate::text::skip_space_from(u, 0) == crate::text::skip_space_from(u, 1));
    assert(u.subrange(1, u.len() as int) =~= text);
}

/// Where the parts of a record lie: the stamp between the brackets, a
/// space, the text, and a line feed at the end; no line feed before the text.
pub proof fn lemma_record_layout(entry: EntryModel)
    requires
        stamp_round_trips(entry),
    ensures
        record_text(entry) == head_text(entry) + seq!['\n'],
        head_text(entry).len() == stamp_len(entry) + 3 + entry.1.len(),
        head_text(entry)[0] == '[',
        head_text(entry)[stamp_len(entry) + 1] == ']',
        head_text(entry)[stamp_len(entry) + 2] == ' ',
        forall|k: int|
            0 <= k < stamp_len(entry) ==> #[trigger] head_text(entry)[k + 1] == stamp_of(
                entry,
            )[k],
        forall|k: int|
            0 <= k < entry.1.len() ==> #[trigger] head_text(entry)[stamp_len(entry) + 3 + k]
                == entry.1[k],
        forall|k: int|
            0 <= k < stamp_len(entry) + 3 ==> #[trigger] head_text(entry)[k] != '\n',
        forall|k: int|
            0 <= k < stamp_len(entry) + 1 ==> #[trigger] head_text(entry)[k] != ']',
{
    let h = head_text(entry);
    let st = stamp_of(entry);
    let n = stamp_len(entry);
    assert(record_text(entry) =~= h + seq!['\n']);
    assert forall|k: int| 0 <= k < n + 3 implies #[trigger] h[k] != '\n' by {
        if 1 <= k <= n {
            assert(h[k] == st[k - 1]);
            assert(crate::time::is_stamp_char(st[k - 1]));
        }
    }
    assert forall|k: int| 0 <= k < n + 1 implies #[trigger] h[k] != ']' by {
        if 1 <= k <= n {
            assert(h[k] == st[k - 1]);
            assert(crate::time::is_stamp_char(st[k - 1]));
        }
    }
}

/// A text that begins like the record of an entry, up to some end behind the
/// space, is a record with the entry's time stamp.
pub proof fn lemma_head_prefix_parses(entry: EntryModel, end: int)
    requires
        stamp_round_trips(entry),
        stamp_len(entry) + 3 <= end <= head_text(entry).len(),
    ensures
        parse_record(head_text(entry).subrange(0, end)) == Some(
            (
                entry.0,
                trimmed(
                    head_text(entry).subrange(0, end).subrange(stamp_len(entry) + 2, end),
                ),
            ),
        ),
{
    let h = head_text(entry);
    let st = stamp_of(entry);
    let n = stamp_len(entry);
    let f = h.subrange(0, end);
    lemma_record_layout(entry);
    assert forall|k: int| 0 <= k < n + 1 implies #[trigger] f[k] != ']' by {
        assert(f[k] == h[k]);
    }
    assert(f[n + 1] == h[n + 1]);
    lemma_next_index_of_is(f, ']', 0, n + 1);
    assert(f.subrange(1, n + 1) =~= st) by {
        assert forall|k: int| 0 <= k < n implies f.subrange(1, n + 1)[k] == st[k] by {
            assert(f[k + 1] == h[k + 1]);
        }
    }
    assert(f[0] == h[0]);
}

/// The record of an entry without its line feed is read as the entry.
pub proof fn lemma_head_parses(entry: EntryModel)
    requires
        stamp_round_trips(entry),
        is_trimmed(entry.1),
    ensures
        parse_record(head_text(entry)) == Some(entry),
{
    let h = head_text(entry);
    let st = stamp_of(entry);
    let n = stamp_len(entry);
    lemma_record_layout(entry);
    lemma_head_prefix_parses(entry, h.len() as int);
    assert(h.subrange(0, h.len() as int) =~= h);
    assert(h.subrange(n + 2, h.len() as int) =~= seq![' '] + entry.1) by {
        assert forall|k: int| 0 <= k < entry.1.len() implies h.subrange(
            n + 2,
            h.len() as int,
        )[k + 1] == entry.1[k] by {
            assert(h[n + 3 + k] == entry.1[k]);
        }
    }
    lemma_trimmed_behind_space(entry.1);
}

/// Reading the lines of a record behind its first line adds them to the
/// text that is being gathered, until that text is the whole record.
pub proof fn lemma_read_rest_of_record(entry: EntryModel, items: Seq<EntryModel>, from: int)
    requires
        stamp_round_trips(entry),
        body_round_trips(entry.1),
        stamp_len(entry) + 3 < from <= record_text(entry).len(),
        record_text(entry)[from - 1] == '\n',
    ensures
        read_lines(
            (items, head_text(entry).subrange(0, from - 1)),
            lines_from(record_text(entry), from),
        ) == (items, head_text(entry)),
    decreases record_text(entry).len() - from,
{
    let s = record_text(entry);
    let h = head_text(entry);
    let t = entry.1;
    let o = stamp_len(entry) + 3;
    lemma_record_layout(entry);
    assert(s.len() == h.len() + 1);
    assert(s[s.len() - 1] == '\n');
    assert forall|k: int| 0 <= k < h.len() implies #[trigger] s[k] == h[k] by {}
    if from == s.len() {
        assert(h.subrange(0, from - 1) =~= h);
    } else {
        let end = next_index_of(s, '\n', from);
        lemma_next_index_of(s, '\n', from);
        if end >= s.len() {
            assert(s[s.len() - 1] != '\n');
        }
        let line = s.subrange(from, end);
        let i = from - 1 - o;
        assert(t[i] == h[o + i]);
        assert(t[i] == '\n');
        assert forall|k: int| i + 1 <= k < end - o implies #[trigger] t[k] != '\n' by {
            assert(t[k] == h[o + k]);
            assert(s[o + k] != '\n');
        }
        if end - o < t.len() {
            assert(t[end - o] == h[end]);
        }
        lemma_next_index_of_is(t, '\n', i + 1, end - o);
        assert(t.subrange(i + 1, end - o) =~= line) by {
            assert forall|k: int| 0 <= k < end - from implies t.subrange(i + 1, end - o)[k]
                == line[k] by {
                assert(t[i + 1 + k] == h[o + i + 1 + k]);
            }
        }
        assert(parse_record(line) is None);
        assert(strip_cr(line) == line) by {
            if line.len() > 0 && line.last() == '\r' {
                assert(s[end - 1] == '\r');
                assert(t[end - 1 - o] == h[end - 1]);
                if end - o < t.len() {
                    assert(t[end - o] == '\n');
                } else {
                    assert(t.last() == '\r');
                    assert(is_space(t.last()));
                }
            }
        }
        let current = h.subrange(0, from - 1);
        let rest = lines_from(s, end + 1);
        assert(lines_from(s, from) == seq![line] + rest);
        assert((seq![line] + rest).first() == line);
        assert((seq![line] + rest).drop_first() =~= rest);
        assert(current.len() > 0);
        assert(current + seq!['\n'] + line =~= h.subrange(0, end)) by {
            assert(h[from - 1] == '\n');
            assert forall|k: int| 0 <= k < end - from implies line[k] == h[from + k] by {}
        }
        assert(read_line((items, current), line) == (items, h.subrange(0, end)));
        lemma_read_rest_of_record(entry, items, end + 1);
    }
}

/// Reading the lines of one record closes the text that was gathered before,
/// which becomes an entry, and leaves the record as the gathered text.
pub proof fn lemma_read_record(entry: EntryModel, items: Seq<EntryModel>, current: Seq<char>)
    requires
        stamp_round_trips(entry),
        body_round_trips(entry.1),
        current.len() == 0 || parse_record(current) is Some,
    ensures
        read_lines((items, current), split_lines(record_text(entry))) == (
            if current.len() == 0 {
                items
            } else {
                items.push(parse_record(current)->0)
            },
            head_text(entry),
        ),
{
    let s = record_text(entry);
    let h = head_text(entry);
    let t = entry.1;
    let o = stamp_len(entry) + 3;
    lemma_record_layout(entry);
    assert(s.len() == h.len() + 1);
    assert(s[s.len() - 1] == '\n');
    assert forall|k: int| 0 <= k < h.len() implies #[trigger] s[k] == h[k] by {}
    let end = next_index_of(s, '\n', 0);
    lemma_next_index_of(s, '\n', 0);
    if end >= s.len() {
        assert(s[s.len() - 1] != '\n');
    }
    if end < o {
        assert(h[end] != '\n');
    }
    let line = s.subrange(0, end);
    assert(line =~= h.subrange(0, end));
    lemma_head_prefix_parses(entry, end);
    assert(strip_cr(line) == line) by {
        if line.len() > 0 && line.last() == '\r' {
            assert(s[end - 1] == '\r');
            if end == o {
                assert(h[o - 1] == ' ');
            } else {
                assert(t[end - 1 - o] == h[end - 1]);
                if end - o < t.len() {
                    assert(t[end - o] == h[end]);
                    assert(t[end - o] == '\n');
                } else {
                    assert(t.last() == '\r');
                    assert(is_space(t.last()));
                }
            }
        }
    }
    let rest = lines_from(s, end + 1);
    assert(split_lines(s) == seq![line] + rest);
    assert((seq![line] + rest).first() == line);
    assert((seq![line] + rest).drop_first() =~= rest);
    let items_after = if current.len() == 0 {
        items
    } else {
        items.push(parse_record(current)->0)
    };
    assert(read_line((items, current), line) == (items_after, line));
    lemma_read_rest_of_record(entry, items_after, end + 1);
}

/// The text of a log file ends with a line feed, unless it is empty.
pub proof fn lemma_file_text_ends(entries: Seq<EntryModel>)
    ensures
        entries.len() == 0 ==> file_text(entries).len() == 0,
        entries.len() > 0 ==> file_text(entries).len() > 0 && file_text(entries).last() == '\n',
{
    if entries.len() > 0 {
        assert(record_text(entries.last()).last() == '\n');
    }
}

/// Reading the lines of a log file that was written from entries finds all
/// entries but the last, and leaves the record of the last as the gathered
/// text.
pub proof fn lemma_read_file(entries: Seq<EntryModel>)
    requires
        round_trips(entries),
        stamps_round_trip(entries),
    ensures
        read_lines((Seq::empty(), Seq::empty()), split_lines(file_text(entries))) == if entries.len()
            == 0 {
            (Seq::<EntryModel>::empty(), Seq::<char>::empty())
        } else {
            (entries.drop_last(), head_text(entries.last()))
        },
    decreases entries.len(),
{
    let start = (Seq::<EntryModel>::empty(), Seq::<char>::empty());
    if entries.len() > 0 {
        let before = entries.drop_last();
        let last = entries.last();
        assert forall|i: int| 0 <= i < before.len() implies body_round_trips(
            (#[trigger] before[i]).1,
        ) && stamp_round_trips(before[i]) by {
            assert(before[i] == entries[i]);
        }
        lemma_read_file(before);
        lemma_file_text_ends(before);
        lemma_lines_concat(file_text(before), record_text(last), 0);
        lemma_read_lines_concat(
            start,
            split_lines(file_text(before)),
            split_lines(record_text(last)),
        );
        let middle = read_lines(start, split_lines(file_text(before)));
        if before.len() > 0 {
            lemma_head_parses(before.last());
            lemma_record_layout(before.last());
            lemma_read_record(last, middle.0, middle.1);
            assert(before.drop_last().push(before.last()) =~= before);
        } else {
            lemma_read_record(last, middle.0, middle.1);
        }
    }
}

/// A log file that was written from entries is read back as the same
/// entries, where every text is one that a log file gives back and every
/// time stamp is parsed back as it was printed.
pub proof fn lemma_round_trip(entries: Seq<EntryModel>)
    requires
        round_trips(entries),
        stamps_round_trip(entries),
    ensures
        parse_entries(file_text(entries)) == entries,
{
    lemma_read_file(entries);
    if entries.len() > 0 {
        lemma_head_parses(entries.last());
        lemma_record_layout(entries.last());
        assert(entries.drop_last().push(entries.last()) =~= entries);
    } else {
        assert(entries =~= Seq::<EntryModel>::empty());
    }
}

} // verus!
