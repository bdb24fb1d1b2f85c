//! Character-sequence utilities: ASCII-whitespace trimming, prefix and
//! substring tests, and line splitting. These back the sentinel-content
//! classifier and the software-update label extractor.

use vstd::prelude::*;

verus! {

/// ASCII whitespace: the characters stripped from both ends of a sentinel
/// value or a status line.
pub open spec fn is_ws(c: char) -> bool {
    c == ' ' || c == '\t' || c == '\n' || c == '\r' || c == '\x0b' || c == '\x0c'
}

pub open spec fn drop_leading_ws(s: Seq<char>) -> Seq<char>
    decreases s.len(),
{
    if s.len() > 0 && is_ws(s[0]) {
        drop_leading_ws(s.drop_first())
    } else {
        s
    }
}

pub open spec fn drop_trailing_ws(s: Seq<char>) -> Seq<char>
    decreases s.len(),
{
    if s.len() > 0 && is_ws(s[s.len() - 1]) {
        drop_trailing_ws(s.drop_last())
    } else {
        s
    }
}

/// The sequence with ASCII whitespace removed from both ends.
pub open spec fn trimmed(s: Seq<char>) -> Seq<char> {
    drop_trailing_ws(drop_leading_ws(s))
}

proof fn lemma_drop_leading_ws_subrange(s: Seq<char>, i: int)
    requires
        0 <= i <= s.len(),
        forall|j: int| 0 <= j < i ==> is_ws(s[j]),
        i < s.len() ==> !is_ws(s[i]),
    ensures
        drop_leading_ws(s) =~= s.subrange(i, s.len() as int),
    decreases i,
{
    if i == 0 {
        assert(s.subrange(0, s.len() as int) =~= s);
    } else {
        assert(is_ws(s[0]));
        lemma_drop_leading_ws_subrange(s.drop_first(), i - 1);
        assert(s.drop_first().subrange(i - 1, s.drop_first().len() as int) =~= s.subrange(
            i,
            s.len() as int,
        ));
    }
}

proof fn lemma_drop_trailing_ws_subrange(s: Seq<char>, e: int)
    requires
        0 <= e <= s.len(),
        forall|j: int| e <= j < s.len() ==> is_ws(s[j]),
        e > 0 ==> !is_ws(s[e - 1]),
    ensures
        drop_trailing_ws(s) =~= s.subrange(0, e),
    decreases s.len() - e,
{
    if e == s.len() {
        assert(s.subrange(0, s.len() as int) =~= s);
    } else {
        assert(is_ws(s[s.len() - 1]));
        lemma_drop_trailing_ws_subrange(s.drop_last(), e);
    }
}

/// Whether `c` is ASCII whitespace.
pub fn is_ws_char(c: char) -> (r: bool)
    ensures
        r == is_ws(c),
{
    c == ' ' || c == '\t' || c == '\n' || c == '\r' || c == '\x0b' || c == '\x0c'
}

/// The index range `[r.0, r.1)` of `s` left after trimming ASCII whitespace
/// from both ends.
pub fn trim_range(s: &str) -> (r: (usize, usize))
    ensures
        r.0 <= r.1 <= s@.len(),
        s@.subrange(r.0 as int, r.1 as int) == trimmed(s@),
{
    let n = s.unicode_len();
    let mut start: usize = 0;
    while start < n && is_ws_char(s.get_char(start))
        invariant
            0 <= start <= n,
            n == s@.len(),
            forall|j: int| 0 <= j < start ==> is_ws(s@[j]),
        decreases n - start,
    {
        start = start + 1;
    }
    proof {
        lemma_drop_leading_ws_subrange(s@, start as int);
    }
    let ghost lead = s@.subrange(start as int, n as int);
    let mut end: usize = n;
    while end > start && is_ws_char(s.get_char(end - 1))
        invariant
            start <= end <= n,
            n == s@.len(),
            lead == s@.subrange(start as int, n as int),
            forall|j: int| end <= j < n ==> is_ws(s@[j]),
        decreases end,
    {
        end = end - 1;
    }
    proof {
        assert(forall|j: int|
            (end - start) <= j < lead.len() ==> is_ws(#[trigger] lead[j])) by {
            assert(forall|j: int|
                (end - start) <= j < lead.len() ==> lead[j] == s@[j + start as int]);
        }
        assert(end > start ==> !is_ws(lead[end - start - 1]));
        lemma_drop_trailing_ws_subrange(lead, end - start);
        assert(lead.subrange(0, end - start) =~= s@.subrange(start as int, end as int));
    }
    (start, end)
}

/// Whether `sub` occurs in `s` starting at index `i`.
pub open spec fn matches_at(s: Seq<char>, sub: Seq<char>, i: int) -> bool {
    0 <= i && i + sub.len() <= s.len() && s.subrange(i, i + sub.len()) == sub
}

/// Whether `sub` occurs anywhere in `s`.
pub open spec fn contains_seq(s: Seq<char>, sub: Seq<char>) -> bool {
    exists|i: int| matches_at(s, sub, i)
}

/// Whether `sub` occurs in `s` at index `i`, by character comparison.
fn matches_at_exec(s: &str, sub: &str, i: usize) -> (r: bool)
    requires
        i + sub@.len() <= s@.len(),
        s@.len() <= usize::MAX,
    ensures
        r == matches_at(s@, sub@, i as int),
{
    let m = sub.unicode_len();
    let mut j: usize = 0;
    while j < m
        invariant
            0 <= j <= m,
            m == sub@.len(),
            i + m <= s@.len(),
            s@.len() <= usize::MAX,
            forall|l: int| 0 <= l < j ==> s@[i + l] == sub@[l],
        decreases m - j,
    {
        if s.get_char(i + j) != sub.get_char(j) {
            assert(s@.subrange(i as int, i + m) != sub@) by {
                assert(s@.subrange(i as int, i + m)[j as int] == s@[i + j]);
            }
            return false;
        }
        j = j + 1;
    }
    assert(s@.subrange(i as int, i + m) =~= sub@);
    true
}

/// Whether `sub` occurs as a substring of `s`.
pub fn contains_str(s: &str, sub: &str) -> (r: bool)
    ensures
        r == contains_seq(s@, sub@),
{
    let n = s.unicode_len();
    let m = sub.unicode_len();
    if m > n {
        assert(!contains_seq(s@, sub@)) by {
            assert(forall|i: int| !matches_at(s@, sub@, i));
        }
        return false;
    }
    if m == 0 {
        assert(matches_at(s@, sub@, 0)) by {
            assert(s@.subrange(0, 0) =~= sub@);
        }
        return true;
    }
    let mut i: usize = 0;
    while i <= n - m
        invariant
            0 <= i <= n - m + 1,
            1 <= m <= n,
            n == s@.len(),
            m == sub@.len(),
            forall|k: int| 0 <= k < i ==> !matches_at(s@, sub@, k),
        decreases n - m + 1 - i,
    {
        if matches_at_exec(s, sub, i) {
            return true;
        }
        i = i + 1;
    }
    assert(forall|k: int| !matches_at(s@, sub@, k)) by {
        assert(forall|k: int| k > n - m ==> !matches_at(s@, sub@, k));
    }
    false
}

/// The index of the first newline in `s`, or `s.len()` if there is none.
pub open spec fn first_nl(s: Seq<char>) -> int
    decreases s.len(),
{
    if s.len() == 0 {
        0
    } else if s[0] == '\n' {
        0
    } else {
        1 + first_nl(s.drop_first())
    }
}

proof fn lemma_first_nl(s: Seq<char>)
    ensures
        0 <= first_nl(s) <= s.len(),
        first_nl(s) < s.len() ==> s[first_nl(s)] == '\n',
        forall|j: int| 0 <= j < first_nl(s) ==> s[j] != '\n',
    decreases s.len(),
{
    if s.len() > 0 && s[0] != '\n' {
        lemma_first_nl(s.drop_first());
        assert forall|j: int| 0 <= j < first_nl(s) implies s[j] != '\n' by {
            if j >= 1 {
                assert(s.drop_first()[j - 1] == s[j]);
                assert(s.drop_first()[j - 1] != '\n');
            }
        }
    }
}

proof fn lemma_first_nl_unique(s: Seq<char>, i: int)
    requires
        0 <= i <= s.len(),
        i < s.len() ==> s[i] == '\n',
        forall|j: int| 0 <= j < i ==> s[j] != '\n',
    ensures
        first_nl(s) == i,
{
    lemma_first_nl(s);
    if first_nl(s) < i {
        assert(s[first_nl(s)] == '\n');
    } else if i < first_nl(s) {
        assert(s[i] != '\n');
    }
}

/// `s` split at newline characters, in the way `str::lines` splits: a
/// trailing newline does not produce a final empty line.
pub open spec fn split_lines_spec(s: Seq<char>) -> Seq<Seq<char>>
    decreases s.len(),
{
    if s.len() == 0 {
        Seq::empty()
    } else {
        let i = first_nl(s);
        if !(0 <= i < s.len()) {
            seq![s]
        } else {
            seq![s.subrange(0, i)] + split_lines_spec(s.subrange(i + 1, s.len() as int))
        }
    }
}

/// Finds the first newline at or after `pos`, or `s.len()` if there is none.
fn find_nl(s: &str, pos: usize) -> (r: usize)
    requires
        pos <= s@.len(),
    ensures
        pos <= r <= s@.len(),
        r - pos == first_nl(s@.subrange(pos as int, s@.len() as int)),
{
    let n = s.unicode_len();
    let mut i: usize = pos;
    while i < n && s.get_char(i) != '\n'
        invariant
            pos <= i <= n,
            n == s@.len(),
            forall|j: int| pos <= j < i ==> s@[j] != '\n',
        decreases n - i,
    {
        i = i + 1;
    }
    proof {
        let t = s@.subrange(pos as int, n as int);
        assert(forall|j: int| 0 <= j < i - pos ==> t[j] == s@[j + pos as int]);
        lemma_first_nl_unique(t, i - pos);
    }
    i
}

/// Splits `s` at newline characters, as `str::lines` does.
pub fn split_lines(s: &str) -> (r: Vec<String>)
    ensures
        r@.map_values(|l: String| l@) == split_lines_spec(s@),
{
    let n = s.unicode_len();
    let mut out: Vec<String> = Vec::new();
    let mut pos: usize = 0;
    proof {
        assert(s@.subrange(0, n as int) =~= s@);
        assert(out@.map_values(|l: String| l@) =~= Seq::<Seq<char>>::empty());
    }
    while pos < n
        invariant
            0 <= pos <= n,
            n == s@.len(),
            split_lines_spec(s@) =~= out@.map_values(|l: String| l@) + split_lines_spec(
                s@.subrange(pos as int, n as int),
            ),
        decreases n - pos,
    {
        let ghost p0 = pos as int;
        let ghost rest = s@.subrange(p0, n as int);
        let ghost out0 = out@;
        let nl = find_nl(s, pos);
        let line = s.substring_char(pos, nl).to_owned();
        proof {
            assert(rest.subrange(0, first_nl(rest)) =~= s@.subrange(p0, nl as int));
        }
        out.push(line);
        proof {
            assert(out@.map_values(|l: String| l@) =~= out0.map_values(|l: String| l@).push(
                line@,
            ));
        }
        if nl == n {
            pos = n;
            proof {
                assert(first_nl(rest) == rest.len());
                assert(split_lines_spec(rest) =~= seq![rest]);
                assert(rest.subrange(0, first_nl(rest)) =~= rest);
                assert(split_lines_spec(s@.subrange(n as int, n as int)) =~= Seq::<
                    Seq<char>,
                >::empty());
            }
        } else {
            pos = nl + 1;
            proof {
                assert(first_nl(rest) < rest.len());
                assert(split_lines_spec(rest) =~= seq![rest.subrange(0, first_nl(rest))]
                    + split_lines_spec(rest.subrange(first_nl(rest) + 1, rest.len() as int)));
                assert(rest.subrange(first_nl(rest) + 1, rest.len() as int) =~= s@.subrange(
                    pos as int,
                    n as int,
                ));
            }
        }
    }
    proof {
        assert(split_lines_spec(s@.subrange(pos as int, n as int)) =~= Seq::<Seq<char>>::empty());
        assert(out@.map_values(|l: String| l@) + Seq::<Seq<char>>::empty() =~= out@.map_values(
            |l: String| l@,
        ));
    }
    out
}

/// Whether `s` begins with `prefix`.
pub fn starts_with_str(s: &str, prefix: &str) -> (r: bool)
    ensures
        r == prefix@.is_prefix_of(s@),
{
    let n = s.unicode_len();
    let m = prefix.unicode_len();
    if m > n {
        return false;
    }
    let r = matches_at_exec(s, prefix, 0);
    proof {
        if r {
            assert(s@.subrange(0, m as int) =~= prefix@);
        } else {
            if prefix@.is_prefix_of(s@) {
                assert(s@.subrange(0, m as int) =~= prefix@);
            }
        }
    }
    r
}

} // verus!
