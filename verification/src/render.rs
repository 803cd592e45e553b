//! The render buffer: the entries as styled lines, wrapped to the width of
//! the terminal.

use vstd::prelude::*;
use crate::log_item::{all_wf, models, EntryModel, LogItem, LogItemList};
use crate::search::{mark_search_result, marked_text, CompiledPattern};
use crate::style::Palette;
use crate::text::{count_visible, lines, push_all, rows, split_lines, string_of, to_chars};
use crate::time::{date_time_text, format_date_time};
use crate::utils::{texts, visible_before, visible_total};

verus! {

/// The lines that `textwrap::wrap` makes of one line at a width.
pub uninterp spec fn wrapped(line: Seq<char>, width: int) -> Seq<Seq<char>>;

/// Calls `textwrap::wrap` with a width and no other option. Trusted: the
/// result is the named one.
#[verifier::external_body]
pub(crate) fn wrap(line: &str, width: usize) -> (r: Vec<String>)
    ensures
        texts(r@) == wrapped(line@, width as int),
{
    textwrap::wrap(line, width).iter().map(|part| part.to_string()).collect()
}

/// The pattern of a search that may be active.
pub open spec fn source_of(pattern: Option<&CompiledPattern>) -> Option<Seq<char>> {
    match pattern {
        Some(compiled) => Some(compiled.source()),
        None => None,
    }
}

/// The text of an entry with the matches of the active search marked.
pub open spec fn marked_body(body: Seq<char>, pattern: Option<Seq<char>>, palette: Palette) -> Seq<
    char,
> {
    match pattern {
        Some(source) => marked_text(source, body, palette.match_open@, palette.match_close@),
        None => body,
    }
}

/// An entry as it is shown before wrapping: its time stamp in square
/// brackets in the style of a date, a space, and its text with the matches
/// of the active search marked.
pub open spec fn styled_entry(entry: EntryModel, pattern: Option<Seq<char>>, palette: Palette) -> Seq<
    char,
> {
    palette.date_open@ + seq!['['] + date_time_text(
        entry.0.0,
        entry.0.1,
        entry.0.2,
        entry.0.3,
        entry.0.4,
    ) + seq![']'] + palette.date_close@ + seq![' '] + marked_body(entry.1, pattern, palette)
}

/// The first `n` of `lines`, each wrapped to `width`, one after the other.
pub open spec fn wrap_each(lines: Seq<Seq<char>>, width: int, n: int) -> Seq<Seq<char>>
    decreases n,
{
    if n <= 0 {
        Seq::empty()
    } else {
        wrap_each(lines, width, n - 1) + wrapped(lines[n - 1], width)
    }
}

/// The rendered lines of one entry.
pub open spec fn entry_lines(
    entry: EntryModel,
    pattern: Option<Seq<char>>,
    palette: Palette,
    width: int,
) -> Seq<Seq<char>> {
    let logical = split_lines(styled_entry(entry, pattern, palette));
    wrap_each(logical, width, logical.len() as int)
}

/// The rendered lines of the first `n` entries, in the order of the entries.
pub open spec fn render_upto(
    entries: Seq<EntryModel>,
    pattern: Option<Seq<char>>,
    palette: Palette,
    width: int,
    n: int,
) -> Seq<Seq<char>>
    decreases n,
{
    if n <= 0 {
        Seq::empty()
    } else {
        render_upto(entries, pattern, palette, width, n - 1) + entry_lines(
            entries[n - 1],
            pattern,
            palette,
            width,
        )
    }
}

/// The render buffer of the entries at a width, with the matches of the
/// active search marked.
pub open spec fn render_buffer(
    entries: Seq<EntryModel>,
    pattern: Option<Seq<char>>,
    palette: Palette,
    width: int,
) -> Seq<Seq<char>> {
    render_upto(entries, pattern, palette, width, entries.len() as int)
}

/// The lines that a pager shows: the render buffer, or no line where the
/// buffer holds more visible characters than can be counted.
pub open spec fn shown_lines(
    entries: Seq<EntryModel>,
    pattern: Option<Seq<char>>,
    palette: Palette,
    width: int,
) -> Seq<Seq<char>> {
    let buffer = render_buffer(entries, pattern, palette, width);
    if visible_total(buffer) <= usize::MAX {
        buffer
    } else {
        Seq::empty()
    }
}

/// An entry as it is shown before wrapping.
pub fn highlight_log_item(log_item: &LogItem, pattern: Option<&CompiledPattern>, palette: &Palette) -> (r:
    String)
    requires
        log_item.wf(),
    ensures
        r@ == styled_entry(log_item.model(), source_of(pattern), *palette),
{
    let mut out: Vec<char> = to_chars(palette.date_open.as_str());
    out.push('[');
    let stamp = to_chars(format_date_time(log_item.date_time()).as_str());
    push_all(&mut out, &stamp);
    out.push(']');
    let close = to_chars(palette.date_close.as_str());
    push_all(&mut out, &close);
    out.push(' ');
    let body = match pattern {
        Some(compiled) => to_chars(mark_search_result(compiled, log_item.content(), palette).as_str()),
        None => to_chars(log_item.content()),
    };
    push_all(&mut out, &body);
    assert(out@ =~= styled_entry(log_item.model(), source_of(pattern), *palette));
    string_of(&out)
}

/// The concatenation of two buffers of lines, as texts.
pub proof fn lemma_texts_concat(a: Seq<String>, b: Seq<String>)
    ensures
        texts(a + b) == texts(a) + texts(b),
{
    assert(texts(a + b) =~= texts(a) + texts(b));
}

/// The rendered lines of one entry at a width.
pub fn wrap_log_item(
    log_item: &LogItem,
    pattern: Option<&CompiledPattern>,
    palette: &Palette,
    width: usize,
) -> (out: Vec<String>)
    requires
        log_item.wf(),
    ensures
        texts(out@) == entry_lines(log_item.model(), source_of(pattern), *palette, width as int),
{
    let styled = to_chars(highlight_log_item(log_item, pattern, palette).as_str());
    let logical = lines(&styled);
    let mut out: Vec<String> = Vec::new();
    let mut i: usize = 0;
    assert(texts(out@) =~= Seq::<Seq<char>>::empty());
    while i < logical.len()
        invariant
            i <= logical.len(),
            texts(out@) == wrap_each(rows(logical@), width as int, i as int),
        decreases logical.len() - i,
    {
        let line = string_of(&logical[i]);
        let mut parts = wrap(line.as_str(), width);
        proof {
            lemma_texts_concat(out@, parts@);
            assert(rows(logical@)[i as int] == line@);
        }
        out.append(&mut parts);
        i += 1;
    }
    out
}

/// The render buffer of the entries at a width.
pub fn render(items: &LogItemList, pattern: Option<&CompiledPattern>, palette: &Palette, width: usize) -> (out:
    Vec<String>)
    requires
        items.wf(),
    ensures
        texts(out@) == render_buffer(items.entries(), source_of(pattern), *palette, width as int),
{
    let all = items.items();
    let mut out: Vec<String> = Vec::new();
    let mut i: usize = 0;
    assert(texts(out@) =~= Seq::<Seq<char>>::empty());
    while i < all.len()
        invariant
            i <= all.len(),
            all_wf(all@),
            texts(out@) == render_upto(
                models(all@),
                source_of(pattern),
                *palette,
                width as int,
                i as int,
            ),
        decreases all.len() - i,
    {
        let mut more = wrap_log_item(&all[i], pattern, palette, width);
        proof {
            lemma_texts_concat(out@, more@);
        }
        out.append(&mut more);
        i += 1;
    }
    out
}

/// Whether the visible characters of the lines can be counted.
pub fn fits(lines: &Vec<String>) -> (r: bool)
    ensures
        r == (visible_total(texts(lines@)) <= usize::MAX),
{
    let ghost all = texts(lines@);
    let mut total: usize = 0;
    let mut i: usize = 0;
    while i < lines.len()
        invariant
            i <= lines.len(),
            all == texts(lines@),
            total == visible_before(all, i as int),
        decreases lines.len() - i,
    {
        let count = count_visible(lines[i].as_str());
        if count > usize::MAX - total {
            proof {
                crate::utils::lemma_visible_before_monotone(all, i + 1, all.len() as int);
            }
            return false;
        }
        total = total + count;
        i += 1;
    }
    true
}

} // verus!
