//! Text as a sequence of characters: white space, trimming, lines, words,
//! and searching for a pattern.
//!
//! The executable functions work on a slice of characters and on a window
//! `lo..hi` of it, so that a caller can cut a text into lines and pieces
//! without copying any of it.

use vstd::prelude::*;
use vstd::string::StrSliceExecFns;
use vstd::string::StringExecFns;

verus! {

/// Whether `c` is white space: one of the 25 characters that carry the
/// Unicode property `White_Space`.
pub open spec fn is_space(c: char) -> bool {
    ||| '\u{9}' <= c <= '\u{d}'
    ||| c == ' '
    ||| c == '\u{85}'
    ||| c == '\u{a0}'
    ||| c == '\u{1680}'
    ||| '\u{2000}' <= c <= '\u{200a}'
    ||| c == '\u{2028}'
    ||| c == '\u{2029}'
    ||| c == '\u{202f}'
    ||| c == '\u{205f}'
    ||| c == '\u{3000}'
}

/// `s` without the white space it begins with.
pub open spec fn trim_start(s: Seq<char>) -> Seq<char>
    decreases s.len(),
{
    if s.len() > 0 && is_space(s.first()) {
        trim_start(s.drop_first())
    } else {
        s
    }
}

/// `s` without the white space it ends with.
pub open spec fn trim_end(s: Seq<char>) -> Seq<char>
    decreases s.len(),
{
    if s.len() > 0 && is_space(s.last()) {
        trim_end(s.drop_last())
    } else {
        s
    }
}

/// `s` without the white space at either end.
pub open spec fn trim(s: Seq<char>) -> Seq<char> {
    trim_end(trim_start(s))
}

/// Number of characters of `s` before the first `c`; the length of `s` where
/// `c` does not occur in it.
pub open spec fn position(s: Seq<char>, c: char) -> nat
    decreases s.len(),
{
    if s.len() == 0 || s.first() == c {
        0
    } else {
        1 + position(s.drop_first(), c)
    }
}

/// The `k`-th line of `text`, counted from 0: the lines are the pieces into
/// which the line feeds cut `text`. `None` where `text` has `k` lines or
/// fewer.
pub open spec fn line(text: Seq<char>, k: nat) -> Option<Seq<char>>
    decreases k,
{
    let end = position(text, '\n');
    if k == 0 {
        Some(text.take(end as int))
    } else if end >= text.len() {
        None
    } else {
        line(text.skip(end as int + 1), (k - 1) as nat)
    }
}

/// Number of characters of `s` before its first white space; the length of
/// `s` where it holds none.
pub open spec fn word_len(s: Seq<char>) -> nat
    decreases s.len(),
{
    if s.len() == 0 || is_space(s.first()) {
        0
    } else {
        1 + word_len(s.drop_first())
    }
}

/// What is left of `s` from its `k`-th word on, counted from 0: the words
/// are the maximal runs of characters that are not white space. Empty where
/// `s` has `k` words or fewer.
pub open spec fn from_word(s: Seq<char>, k: nat) -> Seq<char>
    decreases k,
{
    let t = trim_start(s);
    if k == 0 {
        t
    } else {
        from_word(t.skip(word_len(t) as int), (k - 1) as nat)
    }
}

/// The `k`-th word of `s`, counted from 0; `None` where `s` has `k` words or
/// fewer.
pub open spec fn word(s: Seq<char>, k: nat) -> Option<Seq<char>> {
    let t = from_word(s, k);
    if t.len() == 0 {
        None
    } else {
        Some(t.take(word_len(t) as int))
    }
}

/// What follows the first `p` in `s`; `None` where `p` does not stand in
/// `s`.
pub open spec fn after_first(s: Seq<char>, p: Seq<char>) -> Option<Seq<char>>
    decreases s.len(),
{
    if starts_with(s, p) {
        Some(s.skip(p.len() as int))
    } else if s.len() == 0 {
        None
    } else {
        after_first(s.drop_first(), p)
    }
}

/// What `f` makes of the first line of `text` of which it makes anything.
/// The lines are the pieces into which the line feeds cut `text`.
pub open spec fn first_line_with<T>(
    text: Seq<char>,
    f: spec_fn(Seq<char>) -> Option<T>,
) -> Option<T>
    decreases text.len(),
{
    let end = position(text, '\n');
    let here = f(text.take(end as int));
    if here is Some {
        here
    } else if end >= text.len() {
        None
    } else {
        first_line_with(text.skip(end as int + 1), f)
    }
}

/// Whether `p` stands in `s` at index `i`.
pub open spec fn occurs_at(s: Seq<char>, p: Seq<char>, i: int) -> bool {
    0 <= i && i + p.len() <= s.len() && s.subrange(i, i + p.len()) == p
}

/// Whether `s` begins with `p`.
pub open spec fn starts_with(s: Seq<char>, p: Seq<char>) -> bool {
    occurs_at(s, p, 0)
}

/// Whether `p` stands somewhere in `s`.
pub open spec fn contains(s: Seq<char>, p: Seq<char>) -> bool {
    exists|i: int| occurs_at(s, p, i)
}

/// Where `f` makes nothing of any line of `text`, the search through the
/// lines finds nothing.
pub proof fn lemma_no_line_with<T>(text: Seq<char>, f: spec_fn(Seq<char>) -> Option<T>)
    requires
        forall|k: nat| (#[trigger] line(text, k)) matches Some(l) ==> f(l) is None,
    ensures
        first_line_with(text, f) is None,
    decreases text.len(),
{
    let end = position(text, '\n');
    assert(line(text, 0) == Some(text.take(end as int)));
    if end < text.len() {
        let rest = text.skip(end as int + 1);
        assert forall|k: nat| (#[trigger] line(rest, k)) is Some implies f(line(rest, k)->0)
            is None by {
            assert(line(text, k + 1) == line(rest, k));
        }
        lemma_no_line_with(rest, f);
    }
}

/// Whether `c` is white space.
pub fn is_white_space(c: char) -> (b: bool)
    ensures
        b == is_space(c),
{
    ('\u{9}' <= c && c <= '\u{d}') || c == ' ' || c == '\u{85}' || c == '\u{a0}' || c
        == '\u{1680}' || ('\u{2000}' <= c && c <= '\u{200a}') || c == '\u{2028}' || c
        == '\u{2029}' || c == '\u{202f}' || c == '\u{205f}' || c == '\u{3000}'
}

/// The characters of `text`, in order.
pub fn chars_of(text: &str) -> (out: Vec<char>)
    ensures
        out@ == text@,
{
    let mut out: Vec<char> = Vec::new();
    for c in it: text.chars()
        invariant
            out@ == it.seq().take(it.index()),
            it.seq() == text@,
    {
        out.push(c);
    }
    out
}

/// The characters `lo..hi` of `text` as a string of their own.
pub fn cut(text: &str, lo: usize, hi: usize) -> (out: String)
    requires
        lo <= hi <= text@.len(),
    ensures
        out@ == text@.subrange(lo as int, hi as int),
{
    String::from_str(text.substring_char(lo, hi))
}

/// `text` without the white space around it.
pub fn trimmed(text: &str) -> (out: String)
    ensures
        out@ == trim(text@),
{
    let s: Vec<char> = chars_of(text);
    assert(s@.subrange(0, s@.len() as int) =~= s@);
    let (a, b) = trim_bounds(s.as_slice(), 0, s.len());
    cut(text, a, b)
}

/// Whether the two slices hold the same characters.
pub fn same_chars(a: &[char], b: &[char]) -> (same: bool)
    ensures
        same == (a@ == b@),
{
    if a.len() != b.len() {
        return false;
    }
    let mut i: usize = 0;
    while i < a.len()
        invariant
            i <= a.len(),
            a.len() == b.len(),
            forall|j: int| 0 <= j < i ==> a@[j] == b@[j],
        decreases a.len() - i,
    {
        if a[i] != b[i] {
            return false;
        }
        i += 1;
    }
    assert(a@ =~= b@);
    true
}

/// Bounds of what is left of the window `lo..hi` of `s` once the white space
/// at its ends is gone.
pub fn trim_bounds(s: &[char], lo: usize, hi: usize) -> (r: (usize, usize))
    requires
        lo <= hi <= s.len(),
    ensures
        lo <= r.0 <= r.1 <= hi,
        s@.subrange(r.0 as int, hi as int) == trim_start(s@.subrange(lo as int, hi as int)),
        s@.subrange(r.0 as int, r.1 as int) == trim(s@.subrange(lo as int, hi as int)),
{
    let mut a: usize = lo;
    while a < hi && is_white_space(s[a])
        invariant
            lo <= a <= hi <= s.len(),
            trim_start(s@.subrange(lo as int, hi as int)) == trim_start(
                s@.subrange(a as int, hi as int),
            ),
        decreases hi - a,
    {
        assert(s@.subrange(a as int, hi as int).drop_first() =~= s@.subrange(
            a + 1,
            hi as int,
        ));
        a += 1;
    }
    let mut b: usize = hi;
    while b > a && is_white_space(s[b - 1])
        invariant
            a <= b <= hi <= s.len(),
            trim_end(s@.subrange(a as int, hi as int)) == trim_end(
                s@.subrange(a as int, b as int),
            ),
        decreases b - a,
    {
        assert(s@.subrange(a as int, b as int).drop_last() =~= s@.subrange(
            a as int,
            b - 1,
        ));
        b -= 1;
    }
    (a, b)
}

/// Index of the first `c` in the window `lo..hi` of `s`; `hi` where the
/// window holds none.
pub fn find_char(s: &[char], lo: usize, hi: usize, c: char) -> (at: usize)
    requires
        lo <= hi <= s.len(),
    ensures
        lo <= at <= hi,
        at == lo + position(s@.subrange(lo as int, hi as int), c),
{
    let mut i: usize = lo;
    while i < hi && s[i] != c
        invariant
            lo <= i <= hi <= s.len(),
            position(s@.subrange(lo as int, hi as int), c) == (i - lo) + position(
                s@.subrange(i as int, hi as int),
                c,
            ),
        decreases hi - i,
    {
        assert(s@.subrange(i as int, hi as int).drop_first() =~= s@.subrange(
            i + 1,
            hi as int,
        ));
        i += 1;
    }
    i
}

/// Index of the first white space in the window `lo..hi` of `s`; `hi` where
/// the window holds none.
pub fn find_space(s: &[char], lo: usize, hi: usize) -> (at: usize)
    requires
        lo <= hi <= s.len(),
    ensures
        lo <= at <= hi,
        at == lo + word_len(s@.subrange(lo as int, hi as int)),
{
    let mut i: usize = lo;
    while i < hi && !is_white_space(s[i])
        invariant
            lo <= i <= hi <= s.len(),
            word_len(s@.subrange(lo as int, hi as int)) == (i - lo) + word_len(
                s@.subrange(i as int, hi as int),
            ),
        decreases hi - i,
    {
        assert(s@.subrange(i as int, hi as int).drop_first() =~= s@.subrange(
            i + 1,
            hi as int,
        ));
        i += 1;
    }
    i
}

/// Index of the first character of the window `lo..hi` of `s` that is not
/// white space; `hi` where the window holds no other.
pub fn skip_spaces(s: &[char], lo: usize, hi: usize) -> (at: usize)
    requires
        lo <= hi <= s.len(),
    ensures
        lo <= at <= hi,
        at < hi ==> !is_space(s@[at as int]),
        s@.subrange(at as int, hi as int) == trim_start(s@.subrange(lo as int, hi as int)),
{
    let mut i: usize = lo;
    while i < hi && is_white_space(s[i])
        invariant
            lo <= i <= hi <= s.len(),
            trim_start(s@.subrange(lo as int, hi as int)) == trim_start(
                s@.subrange(i as int, hi as int),
            ),
        decreases hi - i,
    {
        assert(s@.subrange(i as int, hi as int).drop_first() =~= s@.subrange(
            i + 1,
            hi as int,
        ));
        i += 1;
    }
    i
}

/// Bounds of the `k`-th word of the window `lo..hi` of `s`, where there is
/// one.
pub fn word_bounds(s: &[char], lo: usize, hi: usize, k: usize) -> (r: Option<(usize, usize)>)
    requires
        lo <= hi <= s.len(),
    ensures
        match r {
            Some((a, b)) => {
                &&& lo <= a < b <= hi
                &&& s@.subrange(a as int, hi as int) == from_word(
                    s@.subrange(lo as int, hi as int),
                    k as nat,
                )
                &&& word(s@.subrange(lo as int, hi as int), k as nat) == Some(
                    s@.subrange(a as int, b as int),
                )
            },
            None => word(s@.subrange(lo as int, hi as int), k as nat) is None,
        },
{
    let mut from: usize = lo;
    let mut left: usize = k;
    loop
        invariant
            lo <= from <= hi <= s.len(),
            left <= k,
            from_word(s@.subrange(lo as int, hi as int), k as nat) == from_word(
                s@.subrange(from as int, hi as int),
                left as nat,
            ),
        decreases left,
    {
        let a: usize = skip_spaces(s, from, hi);
        let b: usize = find_space(s, a, hi);
        assert(s@.subrange(a as int, hi as int).take(b - a) =~= s@.subrange(a as int, b as int));
        assert(s@.subrange(a as int, hi as int).skip(b - a) =~= s@.subrange(b as int, hi as int));
        if left == 0 {
            if a >= hi {
                return None;
            }
            return Some((a, b));
        }
        from = b;
        left -= 1;
    }
}

/// Whether `p` stands in the window `lo..hi` of `s`, `i` characters into it.
pub fn matches_at(s: &[char], lo: usize, hi: usize, p: &[char], i: usize) -> (b: bool)
    requires
        lo <= hi <= s.len(),
    ensures
        b == occurs_at(s@.subrange(lo as int, hi as int), p@, i as int),
{
    if i > hi - lo || p.len() > hi - lo - i {
        return false;
    }
    let ghost w = s@.subrange(lo as int, hi as int);
    let mut j: usize = 0;
    while j < p.len()
        invariant
            lo <= hi <= s.len(),
            i + p.len() <= hi - lo,
            j <= p.len(),
            w == s@.subrange(lo as int, hi as int),
            forall|t: int| 0 <= t < j ==> w[i + t] == p@[t],
        decreases p.len() - j,
    {
        if s[lo + i + j] != p[j] {
            assert(w.subrange(i as int, i + p.len())[j as int] != p@[j as int]);
            return false;
        }
        j += 1;
    }
    assert(w.subrange(i as int, i + p.len()) =~= p@);
    true
}

/// Whether `p` stands somewhere in the window `lo..hi` of `s`.
pub fn window_contains(s: &[char], lo: usize, hi: usize, p: &[char]) -> (b: bool)
    requires
        lo <= hi <= s.len(),
    ensures
        b == contains(s@.subrange(lo as int, hi as int), p@),
{
    let ghost w = s@.subrange(lo as int, hi as int);
    if p.len() > hi - lo {
        assert(forall|i: int| !occurs_at(w, p@, i));
        return false;
    }
    let last: usize = hi - lo - p.len();
    let mut i: usize = 0;
    loop
        invariant
            lo <= hi <= s.len(),
            last == hi - lo - p.len(),
            i <= last,
            w == s@.subrange(lo as int, hi as int),
            forall|t: int| 0 <= t < i ==> !occurs_at(w, p@, t),
        decreases last - i,
    {
        if matches_at(s, lo, hi, p, i) {
            return true;
        }
        if i == last {
            assert(forall|t: int| !occurs_at(w, p@, t));
            return false;
        }
        i += 1;
    }
}

/// Index in `s` of what follows the first `p` in the window `lo..hi` of
/// `s`, where `p` stands in it.
pub fn find_after(s: &[char], lo: usize, hi: usize, p: &[char]) -> (r: Option<usize>)
    requires
        lo <= hi <= s.len(),
    ensures
        match r {
            Some(at) => lo <= at <= hi && after_first(s@.subrange(lo as int, hi as int), p@)
                == Some(s@.subrange(at as int, hi as int)),
            None => after_first(s@.subrange(lo as int, hi as int), p@) is None,
        },
{
    let mut i: usize = lo;
    loop
        invariant
            lo <= i <= hi <= s.len(),
            after_first(s@.subrange(lo as int, hi as int), p@) == after_first(
                s@.subrange(i as int, hi as int),
                p@,
            ),
        decreases hi - i,
    {
        if matches_at(s, i, hi, p, 0) {
            assert(s@.subrange(i as int, hi as int).skip(p@.len() as int) =~= s@.subrange(
                i + p@.len(),
                hi as int,
            ));
            return Some(i + p.len());
        }
        if i >= hi {
            return None;
        }
        assert(s@.subrange(i as int, hi as int).drop_first() =~= s@.subrange(
            i + 1,
            hi as int,
        ));
        i += 1;
    }
}

} // verus!
