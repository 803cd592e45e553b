//! Search in the rendered lines: compiling a pattern, marking its matches in a
//! text, and finding the next or the previous line that holds a match.

use vstd::prelude::*;
use crate::pager::Pager;
use crate::style::{on_white, split_probe, Palette};
use crate::text::{contains, contains_text, push_all, string_of, to_chars};
use crate::utils::{texts, top_line, visible_before};

verus! {

#[verifier::external_type_specification]
#[verifier::external_body]
pub struct ExRegex(regex::Regex);

#[verifier::external_type_specification]
#[verifier::external_body]
pub struct ExRegexError(regex::Error);

/// The pattern that a compiled regular expression was made from: what
/// `regex::Regex::as_str` returns.
pub uninterp spec fn regex_source(re: regex::Regex) -> Seq<char>;

/// Whether `regex::Regex::new` accepts the pattern.
pub uninterp spec fn pattern_compiles(pattern: Seq<char>) -> bool;

/// The parts of `text` between the matches of the pattern, with what stands
/// before the first and behind the last: what `regex::Regex::split` yields.
pub uninterp spec fn regex_gaps(pattern: Seq<char>, text: Seq<char>) -> Seq<Seq<char>>;

/// The matches of the pattern in `text`, from left to right and without
/// overlap: what `regex::Regex::find_iter` yields.
pub uninterp spec fn regex_hits(pattern: Seq<char>, text: Seq<char>) -> Seq<Seq<char>>;

/// Calls `regex::Regex::new`. Trusted: whether it succeeds is the named
/// result, and the regular expression keeps the pattern it was made from.
#[verifier::external_body]
pub(crate) fn regex_new(pattern: &str) -> (r: Result<regex::Regex, regex::Error>)
    ensures
        r is Ok <==> pattern_compiles(pattern@),
        r is Ok ==> regex_source(r->Ok_0) == pattern@,
{
    regex::Regex::new(pattern)
}

/// Calls `regex::Regex::split` on a regular expression that `regex_new`
/// made. Trusted: the result is the named one, and holds one part more than
/// there are matches.
#[verifier::external_body]
pub(crate) fn regex_split(re: &regex::Regex, text: &str) -> (r: Vec<String>)
    ensures
        texts(r@) == regex_gaps(regex_source(*re), text@),
        r@.len() == regex_hits(regex_source(*re), text@).len() + 1,
{
    re.split(text).map(|part| part.to_string()).collect()
}

/// Calls `regex::Regex::find_iter` on a regular expression that `regex_new`
/// made. Trusted: the result is the named one.
#[verifier::external_body]
pub(crate) fn regex_find_all(re: &regex::Regex, text: &str) -> (r: Vec<String>)
    ensures
        texts(r@) == regex_hits(regex_source(*re), text@),
{
    re.find_iter(text).map(|found| found.as_str().to_string()).collect()
}

/// Why a search pattern was not accepted.
#[derive(Debug, PartialEq, Eq, Structural, Clone, Copy)]
pub enum PatternError {
    /// The pattern is no regular expression, or one that is too large.
    Invalid,
}

/// A search pattern that was compiled. Its regular expression is one that
/// `compile` made, and cannot be set from outside.
pub struct CompiledPattern {
    regex: regex::Regex,
}

impl CompiledPattern {
    /// The pattern as it was typed.
    pub closed spec fn source(&self) -> Seq<char> {
        regex_source(self.regex)
    }
}

/// Compiles a search pattern, or rejects it.
pub fn compile(pattern: &str) -> (r: Result<CompiledPattern, PatternError>)
    ensures
        r is Ok <==> pattern_compiles(pattern@),
        r is Ok ==> r->Ok_0.source() == pattern@,
        r is Err ==> r->Err_0 == PatternError::Invalid,
{
    match regex_new(pattern) {
        Ok(regex) => Ok(CompiledPattern { regex }),
        Err(_) => Err(PatternError::Invalid),
    }
}

/// A match as it is shown: between the sequences that open and close the
/// style of a match. A match without characters is not shown.
pub open spec fn painted(hit: Seq<char>, open: Seq<char>, close: Seq<char>) -> Seq<char> {
    if hit.len() == 0 {
        hit
    } else {
        open + hit + close
    }
}

/// The first part, then the first `n` matches as they are shown, each
/// followed by the part behind it.
pub open spec fn woven(
    gaps: Seq<Seq<char>>,
    hits: Seq<Seq<char>>,
    open: Seq<char>,
    close: Seq<char>,
    n: int,
) -> Seq<char>
    recommends
        gaps.len() == hits.len() + 1,
        0 <= n <= hits.len(),
    decreases n,
{
    if n <= 0 {
        gaps[0]
    } else {
        woven(gaps, hits, open, close, n - 1) + painted(hits[n - 1], open, close) + gaps[n]
    }
}

/// The text with all its matches as they are shown.
pub open spec fn highlighted(
    gaps: Seq<Seq<char>>,
    hits: Seq<Seq<char>>,
    open: Seq<char>,
    close: Seq<char>,
) -> Seq<char> {
    woven(gaps, hits, open, close, hits.len() as int)
}

/// A text with the matches of `pattern` in it as they are shown.
pub open spec fn marked_text(pattern: Seq<char>, text: Seq<char>, open: Seq<char>, close: Seq<
    char,
>) -> Seq<char> {
    highlighted(regex_gaps(pattern, text), regex_hits(pattern, text), open, close)
}

/// Puts a text together again from the parts between its matches and the
/// matches, each match that has characters between `open` and `close`.
pub fn weave(gaps: &Vec<String>, hits: &Vec<String>, open: &str, close: &str) -> (r: String)
    requires
        gaps.len() == hits.len() + 1,
    ensures
        r@ == highlighted(texts(gaps@), texts(hits@), open@, close@),
{
    let opening = to_chars(open);
    let closing = to_chars(close);
    let mut out: Vec<char> = to_chars(gaps[0].as_str());
    let mut i: usize = 0;
    while i < hits.len()
        invariant
            i <= hits.len(),
            gaps.len() == hits.len() + 1,
            opening@ == open@,
            closing@ == close@,
            out@ == woven(texts(gaps@), texts(hits@), open@, close@, i as int),
        decreases hits.len() - i,
    {
        let hit = to_chars(hits[i].as_str());
        let ghost before = out@;
        if hit.len() > 0 {
            push_all(&mut out, &opening);
            push_all(&mut out, &hit);
            push_all(&mut out, &closing);
            assert(out@ =~= before + painted(hit@, open@, close@));
        } else {
            assert(out@ =~= before + painted(hit@, open@, close@));
        }
        let gap = to_chars(gaps[i + 1].as_str());
        push_all(&mut out, &gap);
        i += 1;
    }
    string_of(&out)
}

/// Marks every match of the pattern in `s` that has characters with the
/// palette's style for matches.
pub fn mark_search_result(pattern: &CompiledPattern, s: &str, palette: &Palette) -> (r: String)
    ensures
        r@ == marked_text(pattern.source(), s@, palette.match_open@, palette.match_close@),
{
    let gaps = regex_split(&pattern.regex, s);
    let hits = regex_find_all(&pattern.regex, s);
    weave(&gaps, &hits, palette.match_open.as_str(), palette.match_close.as_str())
}

/// The first line at or after `from` that holds `marker`.
pub open spec fn next_marked(lines: Seq<Seq<char>>, marker: Seq<char>, from: int) -> Option<int>
    decreases lines.len() - from,
{
    if from < 0 || from >= lines.len() {
        None
    } else if contains_text(lines[from], marker) {
        Some(from)
    } else {
        next_marked(lines, marker, from + 1)
    }
}

/// The last line before `before` that holds `marker`.
pub open spec fn prev_marked(lines: Seq<Seq<char>>, marker: Seq<char>, before: int) -> Option<int>
    decreases before,
{
    if before <= 0 {
        None
    } else if before > lines.len() {
        prev_marked(lines, marker, lines.len() as int)
    } else if contains_text(lines[before - 1], marker) {
        Some(before - 1)
    } else {
        prev_marked(lines, marker, before - 1)
    }
}

/// What the scan forward finds: a line with the marker, and none between
/// where the scan began and that line.
pub proof fn lemma_next_marked(lines: Seq<Seq<char>>, marker: Seq<char>, at: int)
    requires
        0 <= at,
    ensures
        match next_marked(lines, marker, at) {
            Some(i) => at <= i < lines.len() && contains_text(lines[i], marker) && forall|k: int|
                at <= k < i ==> !contains_text(#[trigger] lines[k], marker),
            None => forall|k: int|
                at <= k < lines.len() ==> !contains_text(#[trigger] lines[k], marker),
        },
    decreases lines.len() - at,
{
    if at < lines.len() && !contains_text(lines[at], marker) {
        lemma_next_marked(lines, marker, at + 1);
    }
}

/// What the scan backward finds: a line with the marker, and none between
/// that line and where the scan began.
pub proof fn lemma_prev_marked(lines: Seq<Seq<char>>, marker: Seq<char>, at: int)
    ensures
        match prev_marked(lines, marker, at) {
            Some(i) => 0 <= i < at && i < lines.len() && contains_text(lines[i], marker)
                && forall|k: int|
                i < k < at && k < lines.len() ==> !contains_text(#[trigger] lines[k], marker),
            None => forall|k: int|
                0 <= k < at && k < lines.len() ==> !contains_text(#[trigger] lines[k], marker),
        },
    decreases at,
{
    if at <= 0 {
    } else if at > lines.len() {
        lemma_prev_marked(lines, marker, lines.len() as int);
    } else if !contains_text(lines[at - 1], marker) {
        lemma_prev_marked(lines, marker, at - 1);
    }
}

/// Where a scan forward begins: on the current line, or behind it.
pub open spec fn scan_start(current_line: int, skip_current: bool) -> int {
    if skip_current {
        current_line + 1
    } else {
        current_line
    }
}

/// The index of the first line that holds `marker`, from `current_line` on,
/// or from the line behind it where `skip_current` is set.
pub fn search_next_line(lines: &[String], current_line: usize, skip_current: bool, marker: &str) -> (r:
    Option<usize>)
    ensures
        match r {
            Some(i) => i < lines.len() && next_marked(
                texts(lines@),
                marker@,
                scan_start(current_line as int, skip_current),
            ) == Some(i as int),
            None => next_marked(texts(lines@), marker@, scan_start(current_line as int, skip_current))
                is None,
        },
        match r {
            Some(i) => scan_start(current_line as int, skip_current) <= i && contains_text(
                lines@[i as int]@,
                marker@,
            ) && forall|k: int|
                scan_start(current_line as int, skip_current) <= k < i ==> !contains_text(
                    (#[trigger] lines@[k])@,
                    marker@,
                ),
            None => forall|k: int|
                scan_start(current_line as int, skip_current) <= k < lines.len() ==> !contains_text(
                    (#[trigger] lines@[k])@,
                    marker@,
                ),
        },
{
    let ghost all = texts(lines@);
    let ghost start: int = scan_start(current_line as int, skip_current);
    proof {
        lemma_next_marked(all, marker@, start);
        assert forall|k: int| 0 <= k < lines.len() implies all[k] == (#[trigger] lines@[k])@ by {}
    }
    if current_line >= lines.len() {
        return None;
    }
    let needle = to_chars(marker);
    let mut i: usize = if skip_current {
        current_line + 1
    } else {
        current_line
    };
    while i < lines.len()
        invariant
            i <= lines.len(),
            all == texts(lines@),
            needle@ == marker@,
            start == scan_start(current_line as int, skip_current),
            next_marked(all, marker@, i as int) == next_marked(all, marker@, start),
        decreases lines.len() - i,
    {
        let line = to_chars(lines[i].as_str());
        assert(all[i as int] == line@);
        if contains(&line, &needle) {
            proof {
                lemma_next_marked(all, marker@, start);
                assert forall|k: int| 0 <= k < lines.len() implies all[k] == (#[trigger] lines@[k])@ by {}
            }
            return Some(i);
        }
        i += 1;
    }
    proof {
        lemma_next_marked(all, marker@, start);
        assert forall|k: int| 0 <= k < lines.len() implies all[k] == (#[trigger] lines@[k])@ by {}
    }
    None
}

/// The index of the last line before `current_line` that holds `marker`.
pub fn search_prev_line(lines: &[String], current_line: usize, marker: &str) -> (r: Option<usize>)
    ensures
        match r {
            Some(i) => i < lines.len() && i < current_line && prev_marked(
                texts(lines@),
                marker@,
                current_line as int,
            ) == Some(i as int),
            None => prev_marked(texts(lines@), marker@, current_line as int) is None,
        },
        match r {
            Some(i) => contains_text(lines@[i as int]@, marker@) && forall|k: int|
                i < k < current_line && k < lines.len() ==> !contains_text(
                    (#[trigger] lines@[k])@,
                    marker@,
                ),
            None => forall|k: int|
                0 <= k < current_line && k < lines.len() ==> !contains_text(
                    (#[trigger] lines@[k])@,
                    marker@,
                ),
        },
{
    let ghost all = texts(lines@);
    let needle = to_chars(marker);
    let mut i: usize = if current_line < lines.len() {
        current_line
    } else {
        lines.len()
    };
    while i > 0
        invariant
            i <= lines.len(),
            i <= current_line,
            all == texts(lines@),
            needle@ == marker@,
            prev_marked(all, marker@, i as int) == prev_marked(all, marker@, current_line as int),
        decreases i,
    {
        let line = to_chars(lines[i - 1].as_str());
        assert(all[i - 1] == line@);
        if contains(&line, &needle) {
            proof {
                lemma_prev_marked(all, marker@, current_line as int);
                assert forall|k: int| 0 <= k < lines.len() implies all[k] == (#[trigger] lines@[k])@ by {}
            }
            return Some(i - 1);
        }
        i -= 1;
    }
    proof {
        lemma_prev_marked(all, marker@, current_line as int);
        assert forall|k: int| 0 <= k < lines.len() implies all[k] == (#[trigger] lines@[k])@ by {}
    }
    None
}

/// The sequence by which `crossterm` closes a white background in this
/// process: lines that hold it are taken to hold a match. What it is
/// depends on the process and on the console, down to no sequence at all.
pub fn match_marker() -> (marker: String) {
    let mut probe: Vec<char> = Vec::new();
    probe.push('\0');
    let probe = string_of(&probe);
    split_probe(on_white(probe.as_str()).as_str()).1
}

/// Where the top line is after a search forward: on the line that was found,
/// or where it was.
pub open spec fn anchor_after_next(
    lines: Seq<Seq<char>>,
    anchor: nat,
    skip_current: bool,
    marker: Seq<char>,
) -> nat {
    match next_marked(lines, marker, scan_start(top_line(lines, anchor), skip_current)) {
        Some(i) => visible_before(lines, i),
        None => anchor,
    }
}

/// Where the top line is after a search backward: on the line that was
/// found, or where it was.
pub open spec fn anchor_after_prev(lines: Seq<Seq<char>>, anchor: nat, marker: Seq<char>) -> nat {
    match prev_marked(lines, marker, top_line(lines, anchor)) {
        Some(i) => visible_before(lines, i),
        None => anchor,
    }
}

/// Search over anything that pages lines.
pub trait Search: Pager {
    /// Moves the top line to the next line that holds a match, counting the
    /// top line itself unless `skip_current_line` is set. The marker of a
    /// match is the one of this process.
    fn search_next(&mut self, skip_current_line: bool)
        requires
            old(self).pager_wf(),
        ensures
            final(self).pager_wf(),
            final(self).pager_lines() == old(self).pager_lines(),
            exists|marker: Seq<char>|
                final(self).pager_anchor() == anchor_after_next(
                    old(self).pager_lines(),
                    old(self).pager_anchor(),
                    skip_current_line,
                    marker,
                ),
    ;

    /// Moves the top line to the last line before it that holds a match.
    fn search_prev(&mut self)
        requires
            old(self).pager_wf(),
        ensures
            final(self).pager_wf(),
            final(self).pager_lines() == old(self).pager_lines(),
            exists|marker: Seq<char>|
                final(self).pager_anchor() == anchor_after_prev(
                    old(self).pager_lines(),
                    old(self).pager_anchor(),
                    marker,
                ),
    ;
}

impl<T: Pager> Search for T {
    fn search_next(&mut self, skip_current_line: bool) {
        let marker = match_marker();
        let current = self.begin_line_index();
        let found = search_next_line(
            self.colored_lines().as_slice(),
            current,
            skip_current_line,
            marker.as_str(),
        );
        match found {
            Some(line_index) => {
                self.set_begin_line_index(line_index);
            },
            None => {},
        }
        assert(self.pager_anchor() == anchor_after_next(
            old(self).pager_lines(),
            old(self).pager_anchor(),
            skip_current_line,
            marker@,
        ));
    }

    fn search_prev(&mut self) {
        let marker = match_marker();
        let current = self.begin_line_index();
        let found = search_prev_line(self.colored_lines().as_slice(), current, marker.as_str());
        match found {
            Some(line_index) => {
                self.set_begin_line_index(line_index);
            },
            None => {},
        }
        assert(self.pager_anchor() == anchor_after_prev(
            old(self).pager_lines(),
            old(self).pager_anchor(),
            marker@,
        ));
    }
}

} // verus!
