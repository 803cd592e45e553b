//! Text as sequences of characters: conversion, whitespace and trimming.

use vstd::prelude::*;

verus! {

/// `String::push` appends one character.
pub assume_specification[ String::push ](s: &mut String, c: char)
    ensures
        final(s)@ == old(s)@.push(c),
;

/// The characters with the Unicode property `White_Space`.
pub open spec fn is_space(c: char) -> bool {
    let n = c as u32;
    (0x09 <= n <= 0x0D) || n == 0x20 || n == 0x85 || n == 0xA0 || n == 0x1680 || (0x2000 <= n
        <= 0x200A) || n == 0x2028 || n == 0x2029 || n == 0x202F || n == 0x205F || n == 0x3000
}

/// Whether `c` is a whitespace character.
pub fn is_whitespace(c: char) -> (b: bool)
    ensures
        b == is_space(c),
{
    let n: u32 = c as u32;
    (0x09 <= n && n <= 0x0D) || n == 0x20 || n == 0x85 || n == 0xA0 || n == 0x1680 || (0x2000 <= n
        && n <= 0x200A) || n == 0x2028 || n == 0x2029 || n == 0x202F || n == 0x205F || n == 0x3000
}

/// The characters of `s`, in order.
pub fn to_chars(s: &str) -> (v: Vec<char>)
    ensures
        v@ == s@,
{
    let mut v: Vec<char> = Vec::new();
    for c in it: s.chars()
        invariant
            v@ == it.seq().take(it.index()),
            it.seq() == s@,
    {
        v.push(c);
    }
    v
}

/// The string made of the characters `v[from..to]`.
pub fn to_string(v: &Vec<char>, from: usize, to: usize) -> (s: String)
    requires
        from <= to <= v.len(),
    ensures
        s@ == v@.subrange(from as int, to as int),
{
    let mut s = String::new();
    let mut i: usize = from;
    while i < to
        invariant
            from <= i <= to <= v.len(),
            s@ == v@.subrange(from as int, i as int),
        decreases to - i,
    {
        s.push(v[i]);
        i += 1;
    }
    s
}

/// The string made of all the characters of `v`.
pub fn string_of(v: &Vec<char>) -> (s: String)
    ensures
        s@ == v@,
{
    let s = to_string(v, 0, v.len());
    assert(v@.subrange(0, v@.len() as int) =~= v@);
    s
}

/// Appends the characters of `tail` to `s`.
pub fn push_all(s: &mut Vec<char>, tail: &Vec<char>)
    ensures
        final(s)@ == old(s)@ + tail@,
{
    let mut i: usize = 0;
    while i < tail.len()
        invariant
            i <= tail.len(),
            s@ == old(s)@ + tail@.subrange(0, i as int),
        decreases tail.len() - i,
    {
        s.push(tail[i]);
        i += 1;
    }
    assert(tail@.subrange(0, tail@.len() as int) =~= tail@);
}

/// The number of characters of `s` that are not whitespace.
pub open spec fn visible_count(s: Seq<char>) -> nat
    decreases s.len(),
{
    if s.len() == 0 {
        0
    } else {
        visible_count(s.drop_last()) + if is_space(s.last()) {
            0nat
        } else {
            1nat
        }
    }
}

/// Counts the characters of `s` that are not whitespace.
pub fn count_visible(s: &str) -> (n: usize)
    ensures
        n == visible_count(s@),
{
    let v = to_chars(s);
    let mut n: usize = 0;
    let mut i: usize = 0;
    while i < v.len()
        invariant
            i <= v.len(),
            n == visible_count(v@.subrange(0, i as int)),
            n <= i,
        decreases v.len() - i,
    {
        proof {
            assert(v@.subrange(0, i + 1).drop_last() =~= v@.subrange(0, i as int));
        }
        if !is_whitespace(v[i]) {
            n += 1;
        }
        i += 1;
    }
    assert(v@.subrange(0, v@.len() as int) =~= v@);
    n
}

/// The first index at or after `i` whose character is not whitespace, or the
/// length of `s` where there is none.
pub open spec fn skip_space_from(s: Seq<char>, i: int) -> int
    decreases s.len() - i,
{
    if 0 <= i < s.len() && is_space(s[i]) {
        skip_space_from(s, i + 1)
    } else {
        i
    }
}

/// The least end `j >= lo` such that `s[j..hi]` is all whitespace.
pub open spec fn skip_space_back(s: Seq<char>, lo: int, hi: int) -> int
    decreases hi - lo,
{
    if lo < hi <= s.len() && is_space(s[hi - 1]) {
        skip_space_back(s, lo, hi - 1)
    } else {
        hi
    }
}

/// Where the trimmed part of `s` begins.
pub open spec fn trim_begin(s: Seq<char>) -> int {
    skip_space_from(s, 0)
}

/// Where the trimmed part of `s` ends.
pub open spec fn trim_end(s: Seq<char>) -> int {
    skip_space_back(s, trim_begin(s), s.len() as int)
}

/// `s` without its leading and trailing whitespace.
pub open spec fn trimmed(s: Seq<char>) -> Seq<char> {
    s.subrange(trim_begin(s), trim_end(s))
}

/// `s` neither begins nor ends with whitespace.
pub open spec fn is_trimmed(s: Seq<char>) -> bool {
    s.len() > 0 ==> !is_space(s.first()) && !is_space(s.last())
}

/// The bounds that the skipping functions return lie where they should.
pub proof fn lemma_skip_bounds(s: Seq<char>, i: int, hi: int)
    requires
        0 <= i <= hi <= s.len(),
    ensures
        i <= skip_space_from(s, i) <= s.len(),
        i <= skip_space_back(s, i, hi) <= hi,
        skip_space_from(s, i) < s.len() ==> !is_space(s[skip_space_from(s, i)]),
        skip_space_back(s, i, hi) > i ==> !is_space(s[skip_space_back(s, i, hi) - 1]),
        forall|k: int| i <= k < skip_space_from(s, i) ==> is_space(#[trigger] s[k]),
        forall|k: int| skip_space_back(s, i, hi) <= k < hi ==> is_space(#[trigger] s[k]),
    decreases s.len() - i, hi - i,
{
    if i < s.len() && is_space(s[i]) {
        lemma_skip_bounds(s, i + 1, s.len() as int);
    }
    if i < hi && is_space(s[hi - 1]) {
        lemma_skip_bounds(s, i, hi - 1);
    }
}

/// Trimming gives a trimmed text, and leaves a trimmed text as it is.
pub proof fn lemma_trimmed(s: Seq<char>)
    ensures
        0 <= trim_begin(s) <= trim_end(s) <= s.len(),
        is_trimmed(trimmed(s)),
        is_trimmed(s) ==> trimmed(s) == s,
{
    lemma_skip_bounds(s, 0, s.len() as int);
    lemma_skip_bounds(s, trim_begin(s), s.len() as int);
    if is_trimmed(s) {
        assert(trimmed(s) =~= s);
    }
}

/// The bounds of the trimmed part of `v`.
pub fn trim_bounds(v: &Vec<char>) -> (r: (usize, usize))
    ensures
        r.0 == trim_begin(v@),
        r.1 == trim_end(v@),
        r.0 <= r.1 <= v.len(),
{
    let mut a: usize = 0;
    while a < v.len() && is_whitespace(v[a])
        invariant
            a <= v.len(),
            skip_space_from(v@, a as int) == trim_begin(v@),
        decreases v.len() - a,
    {
        a += 1;
    }
    let mut b: usize = v.len();
    while b > a && is_whitespace(v[b - 1])
        invariant
            a <= b <= v.len(),
            a == trim_begin(v@),
            skip_space_back(v@, a as int, b as int) == trim_end(v@),
        decreases b,
    {
        b -= 1;
    }
    (a, b)
}

/// `s` without its leading and trailing whitespace.
pub fn trim(s: &str) -> (t: String)
    ensures
        t@ == trimmed(s@),
{
    let v = to_chars(s);
    let (a, b) = trim_bounds(&v);
    to_string(&v, a, b)
}

/// The character sequences of a list of character vectors.
pub open spec fn rows(v: Seq<Vec<char>>) -> Seq<Seq<char>> {
    Seq::new(v.len(), |i: int| v[i]@)
}

/// The least index at or after `from` where `s` holds `c`, or the length of
/// `s` where it holds none there.
pub open spec fn next_index_of(s: Seq<char>, c: char, from: int) -> int
    decreases s.len() - from,
{
    if from < 0 || from >= s.len() {
        s.len() as int
    } else if s[from] == c {
        from
    } else {
        next_index_of(s, c, from + 1)
    }
}

/// What `next_index_of` finds: the first occurrence and nothing before it.
pub proof fn lemma_next_index_of(s: Seq<char>, c: char, from: int)
    requires
        0 <= from <= s.len(),
    ensures
        from <= next_index_of(s, c, from) <= s.len(),
        next_index_of(s, c, from) < s.len() ==> s[next_index_of(s, c, from)] == c,
        forall|k: int| from <= k < next_index_of(s, c, from) ==> #[trigger] s[k] != c,
    decreases s.len() - from,
{
    if from < s.len() && s[from] != c {
        lemma_next_index_of(s, c, from + 1);
    }
}

/// An index that holds `c` with none before it is the one that is found.
pub proof fn lemma_next_index_of_is(s: Seq<char>, c: char, from: int, at: int)
    requires
        0 <= from <= at <= s.len(),
        at < s.len() ==> s[at] == c,
        forall|k: int| from <= k < at ==> #[trigger] s[k] != c,
    ensures
        next_index_of(s, c, from) == at,
    decreases at - from,
{
    if from < at {
        lemma_next_index_of_is(s, c, from + 1, at);
    }
}

/// The first index at or after `from` where `v` holds `c`, or the length.
pub fn find_char(v: &Vec<char>, c: char, from: usize) -> (at: usize)
    requires
        from <= v.len(),
    ensures
        at == next_index_of(v@, c, from as int),
        from <= at <= v.len(),
{
    let mut i: usize = from;
    while i < v.len() && v[i] != c
        invariant
            from <= i <= v.len(),
            next_index_of(v@, c, i as int) == next_index_of(v@, c, from as int),
        decreases v.len() - i,
    {
        i += 1;
    }
    i
}

/// `line` without the carriage return that it may end with.
pub open spec fn strip_cr(line: Seq<char>) -> Seq<char> {
    if line.len() > 0 && line.last() == '\r' {
        line.drop_last()
    } else {
        line
    }
}

/// The lines of `s` from index `from` on. A line ends with a line feed, or
/// with a carriage return and a line feed, which are not part of it; the last
/// line may end with the text, and keeps a carriage return at its end.
pub open spec fn lines_from(s: Seq<char>, from: int) -> Seq<Seq<char>>
    decreases s.len() - from,
{
    if from < 0 || from >= s.len() {
        Seq::empty()
    } else {
        let end = next_index_of(s, '\n', from);
        if end >= s.len() {
            seq![s.subrange(from, s.len() as int)]
        } else if end < from {
            Seq::empty()
        } else {
            seq![strip_cr(s.subrange(from, end))] + lines_from(s, end + 1)
        }
    }
}

/// The lines of `s`.
pub open spec fn split_lines(s: Seq<char>) -> Seq<Seq<char>> {
    lines_from(s, 0)
}

/// The characters `v[from..to]`.
pub fn slice_chars(v: &Vec<char>, from: usize, to: usize) -> (r: Vec<char>)
    requires
        from <= to <= v.len(),
    ensures
        r@ == v@.subrange(from as int, to as int),
{
    let mut r: Vec<char> = Vec::new();
    let mut i: usize = from;
    while i < to
        invariant
            from <= i <= to <= v.len(),
            r@ == v@.subrange(from as int, i as int),
        decreases to - i,
    {
        r.push(v[i]);
        i += 1;
    }
    r
}

/// Splits `v` into its lines.
pub fn lines(v: &Vec<char>) -> (out: Vec<Vec<char>>)
    ensures
        rows(out@) == split_lines(v@),
{
    let mut out: Vec<Vec<char>> = Vec::new();
    let mut from: usize = 0;
    while from < v.len()
        invariant
            from <= v.len(),
            rows(out@) + lines_from(v@, from as int) == split_lines(v@),
        decreases v.len() - from,
    {
        let end = find_char(v, '\n', from);
        let ghost before = rows(out@);
        if end >= v.len() {
            out.push(slice_chars(v, from, v.len()));
            assert(rows(out@) =~= before + seq![v@.subrange(from as int, v@.len() as int)]);
            from = v.len();
        } else {
            let stop: usize = if end > from && v[end - 1] == '\r' {
                (end - 1) as usize
            } else {
                end
            };
            out.push(slice_chars(v, from, stop));
            assert(v@.subrange(from as int, stop as int) =~= strip_cr(
                v@.subrange(from as int, end as int),
            ));
            assert(rows(out@) =~= before + seq![strip_cr(v@.subrange(from as int, end as int))]);
            from = end + 1;
        }
    }
    assert(rows(out@) + Seq::<Seq<char>>::empty() =~= rows(out@));
    out
}

/// The least index at or after `from` where `s` holds whitespace, or the
/// length of `s` where it holds none there.
pub open spec fn next_space_from(s: Seq<char>, from: int) -> int
    decreases s.len() - from,
{
    if from < 0 || from >= s.len() {
        s.len() as int
    } else if is_space(s[from]) {
        from
    } else {
        next_space_from(s, from + 1)
    }
}

/// The words of `s` from index `from` on: the longest runs of characters
/// that are not whitespace.
pub open spec fn words_from(s: Seq<char>, from: int) -> Seq<Seq<char>>
    decreases s.len() - from,
{
    let begin = skip_space_from(s, from);
    let end = next_space_from(s, begin);
    if from < 0 || begin >= s.len() || end <= from || end > s.len() {
        Seq::empty()
    } else {
        seq![s.subrange(begin, end)] + words_from(s, end)
    }
}

/// The words of `s`.
pub open spec fn split_words(s: Seq<char>) -> Seq<Seq<char>> {
    words_from(s, 0)
}

/// Where a word that begins at `from` ends.
pub proof fn lemma_next_space_from(s: Seq<char>, from: int)
    requires
        0 <= from <= s.len(),
    ensures
        from <= next_space_from(s, from) <= s.len(),
        from < s.len() && !is_space(s[from]) ==> from < next_space_from(s, from),
    decreases s.len() - from,
{
    if from < s.len() && !is_space(s[from]) {
        lemma_next_space_from(s, from + 1);
    }
}

/// Splits `v` into its words.
pub fn words(v: &Vec<char>) -> (out: Vec<Vec<char>>)
    ensures
        rows(out@) == split_words(v@),
{
    let mut out: Vec<Vec<char>> = Vec::new();
    let mut from: usize = 0;
    loop
        invariant
            from <= v.len(),
            rows(out@) + words_from(v@, from as int) == split_words(v@),
        ensures
            rows(out@) == split_words(v@),
        decreases v.len() - from,
    {
        let mut begin: usize = from;
        while begin < v.len() && is_whitespace(v[begin])
            invariant
                from <= begin <= v.len(),
                skip_space_from(v@, begin as int) == skip_space_from(v@, from as int),
            decreases v.len() - begin,
        {
            begin += 1;
        }
        if begin >= v.len() {
            assert(rows(out@) + Seq::<Seq<char>>::empty() =~= rows(out@));
            break;
        }
        let mut end: usize = begin;
        while end < v.len() && !is_whitespace(v[end])
            invariant
                begin <= end <= v.len(),
                next_space_from(v@, end as int) == next_space_from(v@, begin as int),
            decreases v.len() - end,
        {
            end += 1;
        }
        proof {
            lemma_next_space_from(v@, begin as int);
        }
        let ghost before = rows(out@);
        out.push(slice_chars(v, begin, end));
        assert(rows(out@) =~= before + seq![v@.subrange(begin as int, end as int)]);
        from = end;
    }
    out
}

/// Whether `a` and `b` hold the same characters.
pub fn same_chars(a: &Vec<char>, b: &Vec<char>) -> (r: bool)
    ensures
        r == (a@ == b@),
{
    if a.len() != b.len() {
        return false;
    }
    let mut i: usize = 0;
    while i < a.len()
        invariant
            i <= a.len(),
            a.len() == b.len(),
            a@.subrange(0, i as int) == b@.subrange(0, i as int),
        decreases a.len() - i,
    {
        if a[i] != b[i] {
            return false;
        }
        assert(a@.subrange(0, i + 1) =~= a@.subrange(0, i as int).push(a@[i as int]));
        assert(b@.subrange(0, i + 1) =~= b@.subrange(0, i as int).push(b@[i as int]));
        i += 1;
    }
    assert(a@.subrange(0, a@.len() as int) =~= a@);
    assert(b@.subrange(0, b@.len() as int) =~= b@);
    true
}

/// Whether `needle` stands in `hay` at index `at`.
pub open spec fn occurs_at(hay: Seq<char>, needle: Seq<char>, at: int) -> bool {
    0 <= at && at + needle.len() <= hay.len() && hay.subrange(at, at + needle.len()) == needle
}

/// Whether `needle` stands somewhere in `hay`.
pub open spec fn contains_text(hay: Seq<char>, needle: Seq<char>) -> bool {
    exists|at: int| occurs_at(hay, needle, at)
}

/// Whether `needle` stands in `hay` at index `at`.
pub fn starts_at(hay: &Vec<char>, needle: &Vec<char>, at: usize) -> (r: bool)
    ensures
        r == occurs_at(hay@, needle@, at as int),
{
    if at > hay.len() || needle.len() > hay.len() - at {
        return false;
    }
    let ghost part = hay@.subrange(at as int, at + needle.len());
    let mut j: usize = 0;
    while j < needle.len()
        invariant
            j <= needle.len(),
            at + needle.len() <= hay.len(),
            part == hay@.subrange(at as int, at + needle.len()),
            part.subrange(0, j as int) == needle@.subrange(0, j as int),
        decreases needle.len() - j,
    {
        if hay[at + j] != needle[j] {
            assert(part[j as int] != needle@[j as int]);
            return false;
        }
        assert(part.subrange(0, j + 1) =~= part.subrange(0, j as int).push(part[j as int]));
        assert(needle@.subrange(0, j + 1) =~= needle@.subrange(0, j as int).push(
            needle@[j as int],
        ));
        j += 1;
    }
    assert(part.subrange(0, part.len() as int) =~= part);
    assert(needle@.subrange(0, needle@.len() as int) =~= needle@);
    true
}

/// Whether `needle` stands somewhere in `hay`.
pub fn contains(hay: &Vec<char>, needle: &Vec<char>) -> (r: bool)
    ensures
        r == contains_text(hay@, needle@),
{
    if needle.len() > hay.len() {
        return false;
    }
    if needle.len() == 0 {
        assert(hay@.subrange(0, 0) =~= needle@);
        assert(occurs_at(hay@, needle@, 0));
        return true;
    }
    let last: usize = hay.len() - needle.len();
    let mut at: usize = 0;
    while at <= last
        invariant
            at <= last + 1,
            last == hay.len() - needle.len(),
            last < hay.len(),
            forall|k: int| 0 <= k < at ==> !occurs_at(hay@, needle@, k),
        decreases last + 1 - at,
    {
        if starts_at(hay, needle, at) {
            return true;
        }
        at += 1;
    }
    false
}

} // verus!
