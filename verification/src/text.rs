//! Verified text primitives over `&str` / `String`, whose views are
//! `Seq<char>`: whitespace trimming, prefix/suffix/substring tests, and
//! splitting into lines. The Git subcommand outputs that the crate parses are
//! line-oriented, so everything else in the crate is built on these.

use vstd::prelude::*;

verus! {

/// ASCII whitespace: space, tab, line feed, carriage return, vertical tab,
/// form feed. Trimming here recognizes exactly these characters.
pub open spec fn is_ws(c: char) -> bool {
    c == ' ' || c == '\t' || c == '\n' || c == '\r' || c == '\u{0B}' || c == '\u{0C}'
}

/// Index of the first occurrence of `c` in `s`, or `s.len()` if `s` has none.
pub open spec fn find_ch(s: Seq<char>, c: char) -> int
    decreases s.len(),
{
    if s.len() == 0 {
        0
    } else if s[0] == c {
        0
    } else {
        1 + find_ch(s.drop_first(), c)
    }
}

/// `s` without its leading whitespace.
pub open spec fn spec_trim_start(s: Seq<char>) -> Seq<char>
    decreases s.len(),
{
    if s.len() == 0 {
        s
    } else if is_ws(s[0]) {
        spec_trim_start(s.drop_first())
    } else {
        s
    }
}

/// `s` without its trailing whitespace.
pub open spec fn spec_trim_end(s: Seq<char>) -> Seq<char>
    decreases s.len(),
{
    if s.len() == 0 {
        s
    } else if is_ws(s.last()) {
        spec_trim_end(s.drop_last())
    } else {
        s
    }
}

/// `s` without leading and trailing whitespace.
pub open spec fn spec_trim(s: Seq<char>) -> Seq<char> {
    spec_trim_end(spec_trim_start(s))
}

/// A line as produced by line splitting: one trailing carriage return, if
/// any, is removed.
pub open spec fn strip_cr(l: Seq<char>) -> Seq<char> {
    if l.len() > 0 && l.last() == '\r' {
        l.drop_last()
    } else {
        l
    }
}

/// The lines of `s`: segments separated by `'\n'`, each with one trailing
/// `'\r'` removed. A final newline ends the last line rather than opening an
/// empty one, so the empty text has no lines.
pub open spec fn spec_split_lines(s: Seq<char>) -> Seq<Seq<char>>
    decreases s.len(),
    via spec_split_lines_decreases
{
    if s.len() == 0 {
        Seq::empty()
    } else {
        let i = find_ch(s, '\n');
        let line = strip_cr(s.take(i));
        if i == s.len() {
            seq![line]
        } else {
            seq![line] + spec_split_lines(s.skip(i + 1))
        }
    }
}

/// `find_ch` names a position inside `s`, or just past its end.
pub proof fn lemma_find_ch_bounds(s: Seq<char>, c: char)
    ensures
        0 <= find_ch(s, c) <= s.len(),
    decreases s.len(),
{
    if s.len() > 0 && s[0] != c {
        lemma_find_ch_bounds(s.drop_first(), c);
    }
}

#[via_fn]
proof fn spec_split_lines_decreases(s: Seq<char>) {
    lemma_find_ch_bounds(s, '\n');
}

/// `p` stands at position `i` of `s`.
pub open spec fn spec_matches_at(s: Seq<char>, i: int, p: Seq<char>) -> bool {
    0 <= i && i + p.len() <= s.len() && s.subrange(i, i + p.len() as int) == p
}

/// `s` begins with `p`.
pub open spec fn spec_starts_with(s: Seq<char>, p: Seq<char>) -> bool {
    spec_matches_at(s, 0, p)
}

/// `s` ends with `p`.
pub open spec fn spec_ends_with(s: Seq<char>, p: Seq<char>) -> bool {
    p.len() <= s.len() && spec_matches_at(s, s.len() - p.len(), p)
}

/// `p` stands somewhere in `s`.
pub open spec fn spec_contains(s: Seq<char>, p: Seq<char>) -> bool {
    exists|i: int| spec_matches_at(s, i, p)
}

/// A position `k` whose predecessors all miss `c` and which itself holds `c`
/// (or is the end) is exactly `find_ch`.
proof fn lemma_find_ch_at(s: Seq<char>, c: char, k: int)
    requires
        0 <= k <= s.len(),
        forall|j: int| 0 <= j < k ==> s[j] != c,
        k == s.len() || s[k] == c,
    ensures
        find_ch(s, c) == k,
    decreases k,
{
    if k == 0 {
    } else {
        assert(s[0] != c);
        lemma_find_ch_at(s.drop_first(), c, k - 1);
    }
}

proof fn lemma_trim_start_at(s: Seq<char>, k: int)
    requires
        0 <= k <= s.len(),
        forall|j: int| 0 <= j < k ==> is_ws(s[j]),
        k == s.len() || !is_ws(s[k]),
    ensures
        spec_trim_start(s) == s.subrange(k, s.len() as int),
    decreases k,
{
    if k == 0 {
        assert(spec_trim_start(s) =~= s.subrange(0, s.len() as int));
    } else {
        assert(is_ws(s[0]));
        lemma_trim_start_at(s.drop_first(), k - 1);
        assert(s.drop_first().subrange(k - 1, s.drop_first().len() as int) =~= s.subrange(
            k,
            s.len() as int,
        ));
    }
}

proof fn lemma_trim_end_at(s: Seq<char>, k: int)
    requires
        0 <= k <= s.len(),
        forall|j: int| k <= j < s.len() ==> is_ws(s[j]),
        k == 0 || !is_ws(s[k - 1]),
    ensures
        spec_trim_end(s) == s.subrange(0, k),
    decreases s.len(),
{
    if k == s.len() {
        if s.len() == 0 {
            assert(spec_trim_end(s) =~= s.subrange(0, k));
        } else {
            assert(!is_ws(s.last()));
            assert(spec_trim_end(s) =~= s.subrange(0, k));
        }
    } else {
        assert(is_ws(s.last()));
        lemma_trim_end_at(s.drop_last(), k);
        assert(s.drop_last().subrange(0, k) =~= s.subrange(0, k));
    }
}

/// The index of the first occurrence of `c` in `s`, or the length of `s` if
/// there is none — the executable side of [`find_ch`].
pub fn find_char(s: &str, c: char) -> (i: usize)
    ensures
        i as int == find_ch(s@, c),
        i <= s@.len(),
        i < s@.len() ==> s@[i as int] == c,
{
    let n: usize = s.unicode_len();
    let mut i: usize = 0;
    while i < n && s.get_char(i) != c
        invariant
            n == s@.len(),
            0 <= i <= n,
            forall|j: int| 0 <= j < i ==> s@[j] != c,
        decreases n - i,
    {
        i += 1;
    }
    proof {
        lemma_find_ch_at(s@, c, i as int);
    }
    i
}

/// Whether `c` is whitespace in the sense of [`is_ws`].
pub fn is_ws_char(c: char) -> (b: bool)
    ensures
        b == is_ws(c),
{
    c == ' ' || c == '\t' || c == '\n' || c == '\r' || c == '\u{0B}' || c == '\u{0C}'
}

/// Whether `p` stands at position `i` of `s`.
fn match_at(s: &str, i: usize, p: &str) -> (b: bool)
    requires
        i + p@.len() <= s@.len(),
        s@.len() <= usize::MAX,
    ensures
        b == spec_matches_at(s@, i as int, p@),
{
    let m: usize = p.unicode_len();
    let mut j: usize = 0;
    while j < m
        invariant
            m == p@.len(),
            i + m <= s@.len(),
            s@.len() <= usize::MAX,
            0 <= j <= m,
            forall|t: int| 0 <= t < j ==> s@[i + t] == p@[t],
        decreases m - j,
    {
        if s.get_char(i + j) != p.get_char(j) {
            assert(s@.subrange(i as int, i + m) != p@) by {
                assert(s@.subrange(i as int, i + m as int)[j as int] != p@[j as int]);
            }
            return false;
        }
        j += 1;
    }
    assert(s@.subrange(i as int, i + m) =~= p@);
    true
}

/// Whether the views of `a` and `b` are the same sequence of characters.
pub fn str_eq(a: &str, b: &str) -> (r: bool)
    ensures
        r == (a@ == b@),
{
    let n: usize = a.unicode_len();
    if n != b.unicode_len() {
        return false;
    }
    let r = match_at(a, 0, b);
    assert(a@.subrange(0, a@.len() as int) =~= a@);
    r
}

/// Whether `s` begins with `p`.
pub fn starts_with(s: &str, p: &str) -> (b: bool)
    ensures
        b == spec_starts_with(s@, p@),
{
    if p.unicode_len() > s.unicode_len() {
        return false;
    }
    match_at(s, 0, p)
}

/// Whether `s` ends with `p`.
pub fn ends_with(s: &str, p: &str) -> (b: bool)
    ensures
        b == spec_ends_with(s@, p@),
{
    let n: usize = s.unicode_len();
    let m: usize = p.unicode_len();
    if m > n {
        return false;
    }
    match_at(s, n - m, p)
}

/// Whether `p` stands somewhere in `s`.
pub fn has_substring(s: &str, p: &str) -> (b: bool)
    ensures
        b == spec_contains(s@, p@),
{
    let n: usize = s.unicode_len();
    let m: usize = p.unicode_len();
    if m > n {
        return false;
    }
    if m == 0 {
        assert(s@.subrange(0, 0) =~= p@);
        assert(spec_matches_at(s@, 0, p@));
        return true;
    }
    let mut i: usize = 0;
    while i <= n - m
        invariant
            n == s@.len(),
            m == p@.len(),
            0 < m <= n,
            0 <= i <= n - m + 1,
            forall|k: int| 0 <= k < i ==> !spec_matches_at(s@, k, p@),
        decreases n - i,
    {
        if match_at(s, i, p) {
            return true;
        }
        i += 1;
    }
    false
}

/// `s` without leading and trailing whitespace, in the sense of [`is_ws`].
pub fn trim(s: &str) -> (r: &str)
    ensures
        r@ == spec_trim(s@),
{
    let n: usize = s.unicode_len();
    let mut a: usize = 0;
    while a < n && is_ws_char(s.get_char(a))
        invariant
            n == s@.len(),
            0 <= a <= n,
            forall|j: int| 0 <= j < a ==> is_ws(s@[j]),
        decreases n - a,
    {
        a += 1;
    }
    proof {
        lemma_trim_start_at(s@, a as int);
    }
    if a == n {
        let r = s.substring_char(n, n);
        assert(spec_trim_start(s@) =~= Seq::<char>::empty());
        assert(spec_trim(s@) =~= r@);
        return r;
    }
    let mut b: usize = n - 1;
    while is_ws_char(s.get_char(b))
        invariant
            n == s@.len(),
            a < n,
            !is_ws(s@[a as int]),
            a <= b < n,
            forall|j: int| b < j < n ==> is_ws(s@[j]),
        decreases b,
    {
        b -= 1;
    }
    let r = s.substring_char(a, b + 1);
    proof {
        let u = s@.subrange(a as int, n as int);
        lemma_trim_end_at(u, b + 1 - a);
        assert(u.subrange(0, b + 1 - a) =~= s@.subrange(a as int, b + 1));
        assert(r@ == spec_trim(s@));
    }
    r
}

/// The lines of `s`, as [`spec_split_lines`] describes them.
pub fn split_lines(s: &str) -> (lines: Vec<String>)
    ensures
        lines.deep_view() == spec_split_lines(s@),
{
    let n: usize = s.unicode_len();
    let mut lines: Vec<String> = Vec::new();
    let mut start: usize = 0;
    proof {
        assert(s@.skip(0) =~= s@);
        assert(lines.deep_view() =~= Seq::<Seq<char>>::empty());
    }
    while start < n
        invariant
            n == s@.len(),
            0 <= start <= n,
            spec_split_lines(s@) == lines.deep_view() + spec_split_lines(
                s@.skip(start as int),
            ),
        decreases n - start,
    {
        let ghost prev = lines.deep_view();
        let ghost u = s@.skip(start as int);
        let ghost begun = start as int;
        let mut j: usize = start;
        while j < n && s.get_char(j) != '\n'
            invariant
                n == s@.len(),
                start <= j <= n,
                forall|k: int| start <= k < j ==> s@[k] != '\n',
            decreases n - j,
        {
            j += 1;
        }
        proof {
            assert(forall|k: int| 0 <= k < j - begun ==> u[k] != '\n');
            lemma_find_ch_at(u, '\n', j - begun);
        }
        let end: usize = if j > start && s.get_char(j - 1) == '\r' {
            j - 1
        } else {
            j
        };
        let piece = s.substring_char(start, end);
        lines.push(piece.to_owned());
        proof {
            let i = j - begun;
            assert(u.take(i) =~= s@.subrange(begun, j as int));
            if j > begun && s@[j - 1] == '\r' {
                assert(u.take(i).drop_last() =~= s@.subrange(begun, j - 1));
            }
            assert(piece@ == strip_cr(u.take(i)));
            assert(lines.deep_view() =~= prev + seq![piece@]);
        }
        if j < n {
            start = j + 1;
            proof {
                let i = j - begun;
                assert(u.skip(i + 1) =~= s@.skip(j + 1));
                assert(spec_split_lines(u) == seq![strip_cr(u.take(i))] + spec_split_lines(
                    u.skip(i + 1),
                ));
                assert(lines.deep_view() + spec_split_lines(s@.skip(start as int)) =~= prev
                    + spec_split_lines(u));
            }
        } else {
            start = n;
            proof {
                let i = j - begun;
                assert(i == u.len());
                assert(spec_split_lines(u) == seq![strip_cr(u.take(i))]);
                assert(s@.skip(n as int) =~= Seq::<char>::empty());
                assert(lines.deep_view() + spec_split_lines(s@.skip(start as int)) =~= prev
                    + spec_split_lines(u));
            }
        }
    }
    assert(s@.skip(start as int) =~= s@.skip(n as int));
    assert(s@.skip(n as int) =~= Seq::<char>::empty());
    assert(lines.deep_view() =~= lines.deep_view() + spec_split_lines(s@.skip(start as int)));
    lines
}

} // verus!
