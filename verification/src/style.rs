//! The escape sequences that colour the pager's text, taken from `crossterm`.
//!
//! What `crossterm` writes for a styled text depends on the process and on
//! the console: with colours switched off it writes other sequences, and for
//! a console that takes no escape sequences it writes nothing at all. So
//! the sequences are asked for once, with a NUL character in the place of
//! the text, and kept in a [`Palette`]; all that is rendered is stated over
//! that palette.

use vstd::prelude::*;
use crate::text::{
    contains_text, find_char, lemma_next_index_of, next_index_of, occurs_at, string_of, to_chars,
};

verus! {

/// The character that stands for the text when a style is asked for.
pub open spec fn probe_text() -> Seq<char> {
    seq!['\0']
}

/// Where the first NUL character of `styled` is, or the length of `styled`
/// where it holds none.
pub open spec fn probe_index(styled: Seq<char>) -> int {
    next_index_of(styled, '\0', 0)
}

/// What stands before the first NUL character of `styled`; nothing where
/// `styled` holds no NUL character.
pub open spec fn before_probe(styled: Seq<char>) -> Seq<char> {
    if probe_index(styled) < styled.len() {
        styled.subrange(0, probe_index(styled))
    } else {
        Seq::empty()
    }
}

/// What stands behind the first NUL character of `styled`; nothing where
/// `styled` holds no NUL character.
pub open spec fn behind_probe(styled: Seq<char>) -> Seq<char> {
    if probe_index(styled) < styled.len() {
        styled.subrange(probe_index(styled) + 1, styled.len() as int)
    } else {
        Seq::empty()
    }
}

/// Styles `content` as `crossterm` does with a green foreground. Nothing is
/// stated of the result: it depends on the process and on the console.
#[verifier::external_body]
pub(crate) fn green(content: &str) -> (r: String) {
    crossterm::style::Stylize::green(content).to_string()
}

/// Styles `content` as `crossterm` does with a black foreground on a white
/// background. Nothing is stated of the result: it depends on the process
/// and on the console.
#[verifier::external_body]
pub(crate) fn black_on_white(content: &str) -> (r: String) {
    crossterm::style::Stylize::on_white(crossterm::style::Stylize::black(content)).to_string()
}

/// Styles `content` as `crossterm` does with a white background. Nothing is
/// stated of the result: it depends on the process and on the console.
#[verifier::external_body]
pub(crate) fn on_white(content: &str) -> (r: String) {
    crossterm::style::Stylize::on_white(content).to_string()
}

/// The escape sequences of the pager's styles: what opens and closes a date,
/// what opens and closes a search match, and the sequence by which a line
/// with a match is found again.
#[derive(Debug, PartialEq, Eq)]
pub struct Palette {
    pub date_open: String,
    pub date_close: String,
    pub match_open: String,
    pub match_close: String,
    pub marker: String,
}

/// What stands before and behind the first NUL character of `styled`: the
/// sequences that open and close a style, where `styled` is a NUL character
/// in that style. Both are empty where `styled` holds no NUL character.
pub fn split_probe(styled: &str) -> (r: (String, String))
    ensures
        r.0@ == before_probe(styled@),
        r.1@ == behind_probe(styled@),
        contains_text(styled@, probe_text()) ==> styled@ == r.0@ + probe_text() + r.1@,
        !r.0@.contains('\0'),
{
    let v = to_chars(styled);
    let at = find_char(&v, '\0', 0);
    proof {
        lemma_next_index_of(v@, '\0', 0);
        if contains_text(v@, probe_text()) {
            let k = choose|k: int| occurs_at(v@, probe_text(), k);
            assert(v@.subrange(k, k + 1)[0] == '\0');
            assert(v@[k] == '\0');
        }
    }
    if at < v.len() {
        let open = crate::text::to_string(&v, 0, at);
        let close = crate::text::to_string(&v, at + 1, v.len());
        assert(v@ =~= open@ + probe_text() + close@);
        (open, close)
    } else {
        (String::new(), String::new())
    }
}

impl Palette {
    /// The palette without any escape sequence: text stays as it is.
    pub fn plain() -> (p: Palette)
        ensures
            p.date_open@.len() == 0,
            p.date_close@.len() == 0,
            p.match_open@.len() == 0,
            p.match_close@.len() == 0,
            p.marker@.len() == 0,
    {
        Palette {
            date_open: String::new(),
            date_close: String::new(),
            match_open: String::new(),
            match_close: String::new(),
            marker: String::new(),
        }
    }

    /// The palette that three styled NUL characters show: what opens and
    /// closes the first is the style of a date, what opens and closes the
    /// second is the style of a match, and what closes the third is the
    /// marker.
    pub fn from_probes(date: &str, found: &str, mark: &str) -> (p: Palette)
        ensures
            p.date_open@ == before_probe(date@),
            p.date_close@ == behind_probe(date@),
            p.match_open@ == before_probe(found@),
            p.match_close@ == behind_probe(found@),
            p.marker@ == behind_probe(mark@),
            !p.date_open@.contains('\0'),
            !p.match_open@.contains('\0'),
    {
        let date = split_probe(date);
        let found = split_probe(found);
        let mark = split_probe(mark);
        Palette {
            date_open: date.0,
            date_close: date.1,
            match_open: found.0,
            match_close: found.1,
            marker: mark.1,
        }
    }

    /// The palette of this process: dates in green, matches in black on
    /// white, and as marker what closes a white background. What the
    /// sequences are depends on the process and on the console, down to no
    /// sequence at all; those that open a style hold no NUL character.
    pub fn detect() -> (p: Palette)
        ensures
            !p.date_open@.contains('\0'),
            !p.match_open@.contains('\0'),
    {
        let mut probe: Vec<char> = Vec::new();
        probe.push('\0');
        let probe = string_of(&probe);
        let date = green(probe.as_str());
        let found = black_on_white(probe.as_str());
        let mark = on_white(probe.as_str());
        Palette::from_probes(date.as_str(), found.as_str(), mark.as_str())
    }
}

} // verus!
