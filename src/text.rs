//! Character-level helpers on strings: splitting into characters, comparing
//! against literals and replacing the first occurrence of a substring.

use vstd::prelude::*;
use vstd::string::{StrSliceExecFns, StringExecFns};

verus! {

/// `t` occurs in `s` starting at position `i`.
pub open spec fn occurs_at(s: Seq<char>, t: Seq<char>, i: int) -> bool {
    0 <= i && i + t.len() <= s.len() && s.subrange(i, i + t.len()) == t
}

/// The first position at or after `k` where `t` occurs in `s`, if any.
pub open spec fn first_index_from(s: Seq<char>, t: Seq<char>, k: int) -> Option<int>
    decreases s.len() + 1 - k,
{
    if k < 0 || k + t.len() > s.len() {
        None
    } else if s.subrange(k, k + t.len()) == t {
        Some(k)
    } else {
        first_index_from(s, t, k + 1)
    }
}

/// A position found by `first_index_from` is an occurrence at or after `k`.
pub proof fn lemma_first_index_from(s: Seq<char>, t: Seq<char>, k: int)
    ensures
        match first_index_from(s, t, k) {
            Some(i) => k <= i && occurs_at(s, t, i),
            None => true,
        },
    decreases s.len() + 1 - k,
{
    if k < 0 || k + t.len() > s.len() {
    } else if s.subrange(k, k + t.len()) == t {
    } else {
        lemma_first_index_from(s, t, k + 1);
    }
}

/// `s` with the first occurrence of `from` replaced by `to`; `s` itself when
/// `from` does not occur.
pub open spec fn replace_first_spec(s: Seq<char>, from: Seq<char>, to: Seq<char>) -> Seq<char> {
    match first_index_from(s, from, 0) {
        Some(i) => s.subrange(0, i) + to + s.subrange(i + from.len(), s.len() as int),
        None => s,
    }
}

/// The characters of `s`, in order.
pub fn to_chars(s: &str) -> (r: Vec<char>)
    ensures
        r@ == s@,
{
    let n = s.unicode_len();
    let mut r: Vec<char> = Vec::new();
    let mut i: usize = 0;
    while i < n
        invariant
            n == s@.len(),
            i <= n,
            r@ == s@.subrange(0, i as int),
        decreases n - i,
    {
        r.push(s.get_char(i));
        i = i + 1;
    }
    assert(r@ =~= s@);
    r
}

/// Whether the characters `v` spell out exactly `s`.
pub fn chars_eq(v: &Vec<char>, s: &str) -> (r: bool)
    ensures
        r == (v@ == s@),
{
    let n = s.unicode_len();
    if v.len() != n {
        return false;
    }
    let mut i: usize = 0;
    while i < n
        invariant
            n == s@.len(),
            n == v@.len(),
            i <= n,
            v@.subrange(0, i as int) == s@.subrange(0, i as int),
        decreases n - i,
    {
        if v[i] != s.get_char(i) {
            return false;
        }
        assert(v@.subrange(0, i + 1) =~= v@.subrange(0, i as int).push(v@[i as int]));
        assert(s@.subrange(0, i + 1) =~= s@.subrange(0, i as int).push(s@[i as int]));
        i = i + 1;
    }
    assert(v@ =~= v@.subrange(0, n as int));
    assert(s@ =~= s@.subrange(0, n as int));
    true
}

/// Whether `t` occurs in `s` at position `i`.
fn matches_at(s: &Vec<char>, t: &Vec<char>, i: usize) -> (r: bool)
    requires
        i + t@.len() <= s@.len(),
    ensures
        r == (s@.subrange(i as int, i + t@.len()) == t@),
{
    let m = t.len();
    let mut j: usize = 0;
    while j < m
        invariant
            m == t@.len(),
            i + m <= s.len(),
            j <= m,
            s@.subrange(i as int, i + j) == t@.subrange(0, j as int),
        decreases m - j,
    {
        if s[i + j] != t[j] {
            assert(s@.subrange(i as int, i + m)[j as int] != t@[j as int]);
            return false;
        }
        assert(s@.subrange(i as int, i + j + 1) =~= s@.subrange(i as int, i + j).push(s@[i + j]));
        assert(t@.subrange(0, j + 1) =~= t@.subrange(0, j as int).push(t@[j as int]));
        j = j + 1;
    }
    assert(t@ =~= t@.subrange(0, m as int));
    true
}

/// Whether `v` begins with the characters of `p`.
pub fn has_prefix(v: &Vec<char>, p: &str) -> (r: bool)
    ensures
        r == (p@.len() <= v@.len() && v@.subrange(0, p@.len() as int) == p@),
{
    let pc = to_chars(p);
    if pc.len() > v.len() {
        false
    } else {
        matches_at(v, &pc, 0)
    }
}

/// The first position where `t` occurs in `s`.
pub fn find_first(s: &Vec<char>, t: &Vec<char>) -> (r: Option<usize>)
    ensures
        match r {
            Some(i) => first_index_from(s@, t@, 0) == Some(i as int),
            None => first_index_from(s@, t@, 0) is None,
        },
{
    if t.len() > s.len() {
        return None;
    }
    let last = s.len() - t.len();
    let mut i: usize = 0;
    loop
        invariant
            last == s@.len() - t@.len(),
            i <= last,
            first_index_from(s@, t@, 0) == first_index_from(s@, t@, i as int),
        decreases last - i,
    {
        if matches_at(s, t, i) {
            return Some(i);
        }
        if i == last {
            assert(first_index_from(s@, t@, i + 1) is None);
            return None;
        }
        i = i + 1;
    }
}

/// `s` with the first occurrence of `from` replaced by `to`.
pub fn replace_first(s: &str, from: &str, to: &str) -> (r: String)
    ensures
        r@ == replace_first_spec(s@, from@, to@),
{
    let sc = to_chars(s);
    let fc = to_chars(from);
    match find_first(&sc, &fc) {
        Some(i) => {
            proof {
                lemma_first_index_from(s@, from@, 0);
            }
            let n = sc.len();
            let m = fc.len();
            let mut r = String::from_str(s.substring_char(0, i));
            r.append(to);
            r.append(s.substring_char(i + m, n));
            r
        },
        None => String::from_str(s),
    }
}

/// `s` without its line terminator: a trailing line feed, together with a
/// carriage return just before it. A carriage return that no line feed
/// follows stays.
pub open spec fn strip_terminator(s: Seq<char>) -> Seq<char> {
    if s.len() > 0 && s.last() == '\n' {
        let s1 = s.drop_last();
        if s1.len() > 0 && s1.last() == '\r' {
            s1.drop_last()
        } else {
            s1
        }
    } else {
        s
    }
}

/// A line read from the input, without its line terminator.
pub fn strip_line_terminator(line: &str) -> (r: String)
    ensures
        r@ == strip_terminator(line@),
{
    let mut n = line.unicode_len();
    if n > 0 && line.get_char(n - 1) == '\n' {
        n = n - 1;
        if n > 0 && line.get_char(n - 1) == '\r' {
            n = n - 1;
        }
    }
    String::from_str(line.substring_char(0, n))
}

} // verus!
