//! Text as sequences of characters: whitespace, words, lines and fields.

use vstd::prelude::*;
use vstd::string::*;

verus! {

/// ASCII whitespace: space, tab, line feed, form feed and carriage return.
pub open spec fn ascii_space(c: char) -> bool {
    c == ' ' || c == '\t' || c == '\n' || c == '\x0C' || c == '\r'
}

/// Whitespace in the sense of Unicode's `White_Space` property.
pub open spec fn space(c: char) -> bool {
    ||| ('\u{9}' <= c && c <= '\u{D}')
    ||| c == ' '
    ||| c == '\u{85}'
    ||| c == '\u{A0}'
    ||| c == '\u{1680}'
    ||| ('\u{2000}' <= c && c <= '\u{200A}')
    ||| c == '\u{2028}'
    ||| c == '\u{2029}'
    ||| c == '\u{202F}'
    ||| c == '\u{205F}'
    ||| c == '\u{3000}'
}

pub fn is_ascii_space(c: char) -> (b: bool)
    ensures
        b == ascii_space(c),
{
    c == ' ' || c == '\t' || c == '\n' || c == '\x0C' || c == '\r'
}

pub fn is_space(c: char) -> (b: bool)
    ensures
        b == space(c),
{
    ('\u{9}' <= c && c <= '\u{D}') || c == ' ' || c == '\u{85}' || c == '\u{A0}' || c
        == '\u{1680}' || ('\u{2000}' <= c && c <= '\u{200A}') || c == '\u{2028}' || c
        == '\u{2029}' || c == '\u{202F}' || c == '\u{205F}' || c == '\u{3000}'
}

/// The least index at or after `from` at which `c` stands in `s`, or the
/// length of `s` where it stands nowhere from there on.
pub open spec fn find(s: Seq<char>, c: char, from: int) -> int
    decreases s.len() - from,
{
    if from >= s.len() {
        s.len() as int
    } else if s[from] == c {
        from
    } else {
        find(s, c, from + 1)
    }
}

/// The least index at or after `from` that holds ASCII whitespace, or the
/// length of `s`.
pub open spec fn word_end(s: Seq<char>, from: int) -> int
    decreases s.len() - from,
{
    if from >= s.len() {
        s.len() as int
    } else if ascii_space(s[from]) {
        from
    } else {
        word_end(s, from + 1)
    }
}

pub proof fn lemma_find_bounds(s: Seq<char>, c: char, from: int)
    requires
        0 <= from <= s.len(),
    ensures
        from <= find(s, c, from) <= s.len(),
        find(s, c, from) < s.len() ==> s[find(s, c, from)] == c,
        forall|k: int| from <= k < find(s, c, from) ==> s[k] != c,
    decreases s.len() - from,
{
    if from < s.len() && s[from] != c {
        lemma_find_bounds(s, c, from + 1);
    }
}

pub proof fn lemma_word_end_bounds(s: Seq<char>, from: int)
    requires
        0 <= from <= s.len(),
    ensures
        from <= word_end(s, from) <= s.len(),
        word_end(s, from) < s.len() ==> ascii_space(s[word_end(s, from)]),
        forall|k: int| from <= k < word_end(s, from) ==> !ascii_space(s[k]),
    decreases s.len() - from,
{
    if from < s.len() && !ascii_space(s[from]) {
        lemma_word_end_bounds(s, from + 1);
    }
}

/// The words of `s` from index `from` on: the maximal runs of characters
/// that are not ASCII whitespace, in order.
pub open spec fn words_from(s: Seq<char>, from: int) -> Seq<Seq<char>>
    decreases s.len() - from,
{
    if from < 0 || from >= s.len() {
        Seq::empty()
    } else if ascii_space(s[from]) {
        words_from(s, from + 1)
    } else {
        proof {
            lemma_word_end_bounds(s, from + 1);
        }
        seq![s.subrange(from, word_end(s, from))] + words_from(s, word_end(s, from))
    }
}

/// The words of `s`: what lies between its stretches of ASCII whitespace.
pub open spec fn words(s: Seq<char>) -> Seq<Seq<char>> {
    words_from(s, 0)
}

/// The index of the first `c` in `s` at or after `from`, or the length of `s`.
pub fn find_char(s: &str, c: char, from: usize) -> (at: usize)
    requires
        from <= s@.len(),
    ensures
        at == find(s@, c, from as int),
        from <= at <= s@.len(),
{
    let n = s.unicode_len();
    let mut i = from;
    while i < n && s.get_char(i) != c
        invariant
            from <= i <= n,
            n == s@.len(),
            find(s@, c, from as int) == find(s@, c, i as int),
        decreases n - i,
    {
        i = i + 1;
    }
    i
}

/// The words of `s`, each a slice of it.
pub fn split_words<'a>(s: &'a str) -> (out: Vec<&'a str>)
    ensures
        out.deep_view() == words(s@),
{
    let n = s.unicode_len();
    let mut out: Vec<&'a str> = Vec::new();
    let mut i: usize = 0;
    while i < n
        invariant
            i <= n,
            n == s@.len(),
            words(s@) == out.deep_view() + words_from(s@, i as int),
        decreases n - i,
    {
        if is_ascii_space(s.get_char(i)) {
            i = i + 1;
        } else {
            let start = i;
            let mut j = i + 1;
            while j < n && !is_ascii_space(s.get_char(j))
                invariant
                    start < j <= n,
                    n == s@.len(),
                    word_end(s@, start as int) == word_end(s@, j as int),
                decreases n - j,
            {
                j = j + 1;
            }
            out.push(s.substring_char(start, j));
            i = j;
        }
    }
    out
}

/// The least index at or after `from` that holds no whitespace, or the
/// length of `s`.
pub open spec fn skip_space(s: Seq<char>, from: int) -> int
    decreases s.len() - from,
{
    if from >= s.len() {
        s.len() as int
    } else if !space(s[from]) {
        from
    } else {
        skip_space(s, from + 1)
    }
}

/// The least `n` at or below `to` such that only whitespace stands in
/// `s` from `n` up to `to`.
pub open spec fn drop_space(s: Seq<char>, to: int) -> int
    decreases to,
{
    if to <= 0 {
        0
    } else if !space(s[to - 1]) {
        to
    } else {
        drop_space(s, to - 1)
    }
}

/// `s` without the whitespace at its two ends.
pub open spec fn trimmed(s: Seq<char>) -> Seq<char> {
    let from = skip_space(s, 0);
    let to = drop_space(s, s.len() as int);
    if from < to {
        s.subrange(from, to)
    } else {
        Seq::empty()
    }
}

/// `s` without the whitespace at its two ends.
pub fn trim<'a>(s: &'a str) -> (out: &'a str)
    ensures
        out@ == trimmed(s@),
{
    let n = s.unicode_len();
    let mut from: usize = 0;
    while from < n && is_space(s.get_char(from))
        invariant
            from <= n,
            n == s@.len(),
            skip_space(s@, 0) == skip_space(s@, from as int),
        decreases n - from,
    {
        from = from + 1;
    }
    let mut to: usize = n;
    while to > 0 && is_space(s.get_char(to - 1))
        invariant
            to <= n,
            n == s@.len(),
            drop_space(s@, n as int) == drop_space(s@, to as int),
        decreases to,
    {
        to = to - 1;
    }
    if from < to {
        s.substring_char(from, to)
    } else {
        s.substring_char(0, 0)
    }
}

/// The pieces into which the occurrences of `sep` at or after `from` cut
/// the rest of `s`. There is always one piece more than there are cuts.
pub open spec fn pieces_from(s: Seq<char>, sep: char, from: int) -> Seq<Seq<char>>
    decreases s.len() - from,
{
    if from < 0 || from > s.len() {
        Seq::empty()
    } else if find(s, sep, from) >= s.len() {
        seq![s.subrange(from, s.len() as int)]
    } else {
        proof {
            lemma_find_bounds(s, sep, from);
        }
        seq![s.subrange(from, find(s, sep, from))] + pieces_from(s, sep, find(s, sep, from) + 1)
    }
}

/// The pieces into which the occurrences of `sep` cut `s`.
pub open spec fn pieces(s: Seq<char>, sep: char) -> Seq<Seq<char>> {
    pieces_from(s, sep, 0)
}

/// The pieces into which the occurrences of `sep` cut `s`, each a slice of it.
pub fn split_char<'a>(s: &'a str, sep: char) -> (out: Vec<&'a str>)
    ensures
        out.deep_view() == pieces(s@, sep),
{
    let n = s.unicode_len();
    let mut out: Vec<&'a str> = Vec::new();
    let mut i: usize = 0;
    loop
        invariant_except_break
            i <= n,
            n == s@.len(),
            pieces(s@, sep) == out.deep_view() + pieces_from(s@, sep, i as int),
        ensures
            out.deep_view() == pieces(s@, sep),
        decreases n - i,
    {
        let e = find_char(s, sep, i);
        out.push(s.substring_char(i, e));
        if e >= n {
            break;
        }
        i = e + 1;
    }
    out
}

/// `line` without the carriage return at its end, if it ends in one.
pub open spec fn without_cr(line: Seq<char>) -> Seq<char> {
    if line.len() > 0 && line.last() == '\r' {
        line.drop_last()
    } else {
        line
    }
}

/// The lines of `s` from index `from` on. A line ends with a line feed, or
/// with a carriage return and a line feed; neither belongs to the line. What
/// follows the last line feed is a line too unless it is empty.
pub open spec fn lines_from(s: Seq<char>, from: int) -> Seq<Seq<char>>
    decreases s.len() - from,
{
    if from < 0 || from >= s.len() {
        Seq::empty()
    } else if find(s, '\n', from) >= s.len() {
        seq![s.subrange(from, s.len() as int)]
    } else {
        proof {
            lemma_find_bounds(s, '\n', from);
        }
        seq![without_cr(s.subrange(from, find(s, '\n', from)))] + lines_from(
            s,
            find(s, '\n', from) + 1,
        )
    }
}

/// The lines of `s`.
pub open spec fn lines(s: Seq<char>) -> Seq<Seq<char>> {
    lines_from(s, 0)
}

/// The lines of `s`, each a slice of it.
pub fn split_lines<'a>(s: &'a str) -> (out: Vec<&'a str>)
    ensures
        out.deep_view() == lines(s@),
{
    let n = s.unicode_len();
    let mut out: Vec<&'a str> = Vec::new();
    let mut i: usize = 0;
    while i < n
        invariant
            i <= n,
            n == s@.len(),
            lines(s@) == out.deep_view() + lines_from(s@, i as int),
        decreases n - i,
    {
        let e = find_char(s, '\n', i);
        if e >= n {
            out.push(s.substring_char(i, n));
            i = n;
        } else {
            let cut = if e > i && s.get_char(e - 1) == '\r' {
                e - 1
            } else {
                e
            };
            let line = s.substring_char(i, cut);
            assert(line@ =~= without_cr(s@.subrange(i as int, e as int)));
            out.push(line);
            i = e + 1;
        }
    }
    out
}

/// Whether `s` begins with `prefix`.
pub fn starts_with(s: &str, prefix: &str) -> (b: bool)
    ensures
        b == prefix@.is_prefix_of(s@),
{
    let n = s.unicode_len();
    let m = prefix.unicode_len();
    if m > n {
        return false;
    }
    let mut i: usize = 0;
    while i < m
        invariant
            i <= m <= n,
            n == s@.len(),
            m == prefix@.len(),
            forall|k: int| 0 <= k < i ==> s@[k] == prefix@[k],
        decreases m - i,
    {
        if s.get_char(i) != prefix.get_char(i) {
            return false;
        }
        i = i + 1;
    }
    true
}

/// Whether `a` and `b` hold the same characters.
pub fn same_text(a: &str, b: &str) -> (same: bool)
    ensures
        same == (a@ == b@),
{
    let n = a.unicode_len();
    if n != b.unicode_len() {
        return false;
    }
    let mut i: usize = 0;
    while i < n
        invariant
            i <= n,
            n == a@.len(),
            n == b@.len(),
            forall|k: int| 0 <= k < i ==> a@[k] == b@[k],
        decreases n - i,
    {
        if a.get_char(i) != b.get_char(i) {
            return false;
        }
        i = i + 1;
    }
    assert(a@ =~= b@);
    true
}

/// Every piece of `parts` followed by one space, all in a row.
pub open spec fn spaced(parts: Seq<Seq<char>>) -> Seq<char>
    decreases parts.len(),
{
    if parts.len() == 0 {
        Seq::empty()
    } else {
        spaced(parts.drop_last()) + parts.last() + seq![' ']
    }
}

} // verus!
