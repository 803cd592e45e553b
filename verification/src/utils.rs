//! The mapping between line indices of a buffer of lines and offsets counted in
//! characters that are not whitespace.
//!
//! An offset of this kind does not change when the same text is wrapped at
//! another width, since wrapping moves and drops whitespace only.

use vstd::prelude::*;
use crate::text::{visible_count, count_visible};

verus! {

/// The character sequences of a buffer of lines.
pub open spec fn texts(lines: Seq<String>) -> Seq<Seq<char>> {
    Seq::new(lines.len(), |i: int| lines[i]@)
}

/// The number of visible characters in the first `n` lines; all the lines
/// where `n` is more than there are.
pub open spec fn visible_before(lines: Seq<Seq<char>>, n: int) -> nat
    decreases n,
{
    if n <= 0 {
        0
    } else if n > lines.len() {
        visible_before(lines, lines.len() as int)
    } else {
        visible_before(lines, n - 1) + visible_count(lines[n - 1])
    }
}

/// The number of visible characters in the whole buffer.
pub open spec fn visible_total(lines: Seq<Seq<char>>) -> nat {
    visible_before(lines, lines.len() as int)
}

/// The first line at or after `from` where the running count of visible
/// characters exceeds `offset`.
pub open spec fn line_of_offset_from(lines: Seq<Seq<char>>, offset: nat, from: int) -> Option<int>
    decreases lines.len() - from,
{
    if from < 0 || from >= lines.len() {
        None
    } else if visible_before(lines, from + 1) > offset {
        Some(from)
    } else {
        line_of_offset_from(lines, offset, from + 1)
    }
}

/// The line that holds the visible character with number `offset`, counted
/// from 0 over the whole buffer.
pub open spec fn line_of_offset(lines: Seq<Seq<char>>, offset: nat) -> Option<int> {
    line_of_offset_from(lines, offset, 0)
}

/// The index of the top line for an anchor: the line that holds the visible
/// character at the anchor, or the first line where there is none.
pub open spec fn top_line(lines: Seq<Seq<char>>, anchor: nat) -> int {
    match line_of_offset(lines, anchor) {
        Some(i) => i,
        None => 0,
    }
}

/// The running count of visible characters never falls, and never exceeds
/// the total.
pub proof fn lemma_visible_before_monotone(lines: Seq<Seq<char>>, a: int, b: int)
    requires
        a <= b,
    ensures
        visible_before(lines, a) <= visible_before(lines, b),
        visible_before(lines, b) <= visible_total(lines),
{
    lemma_visible_before_rises(lines, a, b);
    if 0 < b <= lines.len() {
        lemma_visible_before_rises(lines, b, lines.len() as int);
    }
}

proof fn lemma_visible_before_rises(lines: Seq<Seq<char>>, a: int, b: int)
    requires
        a <= b,
    ensures
        visible_before(lines, a) <= visible_before(lines, b),
    decreases b,
{
    if b <= 0 {
    } else if b > lines.len() {
        if a <= lines.len() {
            lemma_visible_before_rises(lines, a, lines.len() as int);
        }
    } else if a < b {
        lemma_visible_before_rises(lines, a, b - 1);
    }
}

/// What the scan for a line returns: the one line whose characters the offset
/// falls among, or nothing where the offset is not below the total.
pub proof fn lemma_line_of_offset_from(lines: Seq<Seq<char>>, offset: nat, from: int)
    requires
        0 <= from <= lines.len(),
        visible_before(lines, from) <= offset,
    ensures
        match line_of_offset_from(lines, offset, from) {
            Some(i) => from <= i < lines.len() && visible_before(lines, i) <= offset
                < visible_before(lines, i + 1),
            None => visible_total(lines) <= offset,
        },
    decreases lines.len() - from,
{
    if from < lines.len() && visible_before(lines, from + 1) <= offset {
        lemma_line_of_offset_from(lines, offset, from + 1);
    }
}

/// The line of an offset is the only one whose characters the offset falls among.
pub proof fn lemma_line_of_offset_unique(lines: Seq<Seq<char>>, offset: nat, i: int)
    requires
        0 <= i < lines.len(),
        visible_before(lines, i) <= offset < visible_before(lines, i + 1),
    ensures
        line_of_offset(lines, offset) == Some(i),
{
    lemma_line_of_offset_from(lines, offset, 0);
    match line_of_offset(lines, offset) {
        Some(j) => {
            if j < i {
                lemma_visible_before_monotone(lines, j + 1, i);
            } else if j > i {
                lemma_visible_before_monotone(lines, i + 1, j);
            }
        },
        None => {
            lemma_visible_before_monotone(lines, i + 1, lines.len() as int);
        },
    }
}

/// The two mappings are inverse on every line that holds a visible character:
/// the line of the offset of line `i` is line `i`.
pub proof fn lemma_line_of_offset_of_line(lines: Seq<Seq<char>>, i: int)
    requires
        0 <= i < lines.len(),
        visible_count(lines[i]) > 0,
    ensures
        line_of_offset(lines, visible_before(lines, i)) == Some(i),
{
    lemma_line_of_offset_unique(lines, visible_before(lines, i), i);
}

/// For a line without a visible character the offset belongs to the next line
/// that has one, if there is any.
pub proof fn lemma_line_of_offset_of_blank_line(lines: Seq<Seq<char>>, i: int)
    requires
        0 <= i < lines.len(),
        visible_count(lines[i]) == 0,
    ensures
        line_of_offset(lines, visible_before(lines, i)) != Some(i),
{
    lemma_line_of_offset_from(lines, visible_before(lines, i), 0);
}

/// The number of visible characters in the lines before `line_index`.
pub fn get_char_index_by_line_index(lines: &[String], line_index: usize) -> (offset: usize)
    requires
        visible_before(texts(lines@), line_index as int) <= usize::MAX,
    ensures
        offset == visible_before(texts(lines@), line_index as int),
{
    let ghost all = texts(lines@);
    let n: usize = if line_index < lines.len() {
        line_index
    } else {
        lines.len()
    };
    let mut current_char_index: usize = 0;
    let mut i: usize = 0;
    while i < n
        invariant
            i <= n <= lines.len(),
            all == texts(lines@),
            current_char_index == visible_before(all, i as int),
            visible_before(all, n as int) <= usize::MAX,
        decreases n - i,
    {
        proof {
            lemma_visible_before_monotone(all, i + 1, n as int);
        }
        let count = count_visible(lines[i].as_str());
        current_char_index = current_char_index + count;
        i += 1;
    }
    current_char_index
}

/// The index of the first line where the running count of visible characters
/// exceeds `char_index`; nothing where `char_index` is not below the total.
pub fn get_line_index_by_char_index(lines: &[String], char_index: usize) -> (line: Option<usize>)
    ensures
        match line {
            Some(i) => line_of_offset(texts(lines@), char_index as nat) == Some(i as int) && i
                < lines.len() && visible_before(texts(lines@), i as int) <= char_index
                < visible_before(texts(lines@), i + 1),
            None => line_of_offset(texts(lines@), char_index as nat) is None && visible_total(
                texts(lines@),
            ) <= char_index,
        },
{
    let ghost all = texts(lines@);
    let mut current_char_index: usize = 0;
    let mut i: usize = 0;
    proof {
        lemma_line_of_offset_from(all, char_index as nat, 0);
    }
    while i < lines.len()
        invariant
            i <= lines.len(),
            all == texts(lines@),
            current_char_index == visible_before(all, i as int),
            current_char_index <= char_index,
            line_of_offset_from(all, char_index as nat, i as int) == line_of_offset(
                all,
                char_index as nat,
            ),
        decreases lines.len() - i,
    {
        let count = count_visible(lines[i].as_str());
        if count > char_index - current_char_index {
            return Some(i);
        }
        current_char_index = current_char_index + count;
        i += 1;
    }
    None
}

} // verus!
