//! Character-sequence predicates and the executable string scans that
//! implement them: ASCII case folding, prefix/suffix tests, substring
//! search, and exact comparison over `&str` values.

use vstd::prelude::*;

verus! {

/// ASCII lower-casing of one character: `'A'..='Z'` map to `'a'..='z'`,
/// every other character is unchanged.
pub open spec fn lower_char(c: char) -> char {
    match c {
        'A' => 'a',
        'B' => 'b',
        'C' => 'c',
        'D' => 'd',
        'E' => 'e',
        'F' => 'f',
        'G' => 'g',
        'H' => 'h',
        'I' => 'i',
        'J' => 'j',
        'K' => 'k',
        'L' => 'l',
        'M' => 'm',
        'N' => 'n',
        'O' => 'o',
        'P' => 'p',
        'Q' => 'q',
        'R' => 'r',
        'S' => 's',
        'T' => 't',
        'U' => 'u',
        'V' => 'v',
        'W' => 'w',
        'X' => 'x',
        'Y' => 'y',
        'Z' => 'z',
        _ => c,
    }
}

/// ASCII lower-casing of a whole character sequence.
pub open spec fn lower(s: Seq<char>) -> Seq<char> {
    s.map_values(|c: char| lower_char(c))
}

/// The pattern `pat` occurs in `s` at offset `i`.
pub open spec fn match_at(s: Seq<char>, pat: Seq<char>, i: int) -> bool {
    &&& 0 <= i
    &&& i + pat.len() <= s.len()
    &&& forall|j: int| 0 <= j < pat.len() ==> s[i + j] == pat[j]
}

/// The pattern `pat` occurs somewhere in `s`.
pub open spec fn contains_seq(s: Seq<char>, pat: Seq<char>) -> bool {
    exists|i: int| match_at(s, pat, i)
}

/// `s` begins with `pre`.
pub open spec fn starts_with(s: Seq<char>, pre: Seq<char>) -> bool {
    match_at(s, pre, 0)
}

/// `s` ends with `suf`.
pub open spec fn ends_with(s: Seq<char>, suf: Seq<char>) -> bool {
    match_at(s, suf, s.len() - suf.len())
}

/// Executable ASCII lower-casing of one character.
pub fn to_lower_char(c: char) -> (r: char)
    ensures
        r == lower_char(c),
{
    match c {
        'A' => 'a',
        'B' => 'b',
        'C' => 'c',
        'D' => 'd',
        'E' => 'e',
        'F' => 'f',
        'G' => 'g',
        'H' => 'h',
        'I' => 'i',
        'J' => 'j',
        'K' => 'k',
        'L' => 'l',
        'M' => 'm',
        'N' => 'n',
        'O' => 'o',
        'P' => 'p',
        'Q' => 'q',
        'R' => 'r',
        'S' => 's',
        'T' => 't',
        'U' => 'u',
        'V' => 'v',
        'W' => 'w',
        'X' => 'x',
        'Y' => 'y',
        'Z' => 'z',
        _ => c,
    }
}

/// Does the lower-cased form of `s` match `pat` at offset `i`?
/// `pat` is compared as given (callers pass it already lower-cased).
fn match_at_fold(s: &str, pat: &str, i: usize, n: usize, m: usize) -> (r: bool)
    requires
        n == s@.len(),
        m == pat@.len(),
        i + m <= n,
    ensures
        r == match_at(lower(s@), pat@, i as int),
{
    let mut j: usize = 0;
    while j < m
        invariant
            n == s@.len(),
            m == pat@.len(),
            i + m <= n,
            0 <= j <= m,
            forall|k: int| 0 <= k < j ==> lower(s@)[i + k] == pat@[k],
        decreases m - j,
    {
        let sc = to_lower_char(s.get_char(i + j));
        let pc = pat.get_char(j);
        if sc != pc {
            assert(lower(s@)[i + j] != pat@[j as int]);
            return false;
        }
        assert(lower(s@)[i + j] == pat@[j as int]);
        j += 1;
    }
    true
}

/// Does the lower-cased form of `s` contain `pat`?
pub fn contains_fold(s: &str, pat: &str) -> (r: bool)
    ensures
        r == contains_seq(lower(s@), pat@),
{
    let n = s.unicode_len();
    let m = pat.unicode_len();
    if m > n {
        assert(forall|i: int| !match_at(lower(s@), pat@, i));
        return false;
    }
    let mut i: usize = 0;
    while i <= n - m
        invariant
            n == s@.len(),
            m == pat@.len(),
            m <= n,
            0 <= i <= n - m + 1,
            forall|k: int| 0 <= k < i ==> !match_at(lower(s@), pat@, k),
        decreases n - m + 1 - i,
    {
        if match_at_fold(s, pat, i, n, m) {
            assert(contains_seq(lower(s@), pat@));
            return true;
        }
        i += 1;
    }
    assert(forall|k: int| k >= i ==> !match_at(lower(s@), pat@, k));
    false
}

/// Does the lower-cased form of `s` end with `suf`?
pub fn ends_with_fold(s: &str, suf: &str) -> (r: bool)
    ensures
        r == ends_with(lower(s@), suf@),
{
    let n = s.unicode_len();
    let m = suf.unicode_len();
    if m > n {
        return false;
    }
    match_at_fold(s, suf, n - m, n, m)
}

/// Does the lower-cased form of `s` begin with `pre`?
pub fn starts_with_fold(s: &str, pre: &str) -> (r: bool)
    ensures
        r == starts_with(lower(s@), pre@),
{
    let n = s.unicode_len();
    let m = pre.unicode_len();
    if m > n {
        return false;
    }
    match_at_fold(s, pre, 0, n, m)
}

/// Does `s` begin with `pre`, compared exactly (case-sensitive)?
pub fn starts_with_exact(s: &str, pre: &str) -> (r: bool)
    ensures
        r == starts_with(s@, pre@),
{
    let n = s.unicode_len();
    let m = pre.unicode_len();
    if m > n {
        return false;
    }
    let mut j: usize = 0;
    while j < m
        invariant
            n == s@.len(),
            m == pre@.len(),
            m <= n,
            0 <= j <= m,
            forall|k: int| 0 <= k < j ==> s@[k] == pre@[k],
        decreases m - j,
    {
        if s.get_char(j) != pre.get_char(j) {
            return false;
        }
        j += 1;
    }
    true
}

/// Are `s` and `t` the same character sequence (case-sensitive)?
pub fn str_eq_exact(s: &str, t: &str) -> (r: bool)
    ensures
        r == (s@ == t@),
{
    let n = s.unicode_len();
    let m = t.unicode_len();
    if m != n {
        return false;
    }
    let mut j: usize = 0;
    while j < n
        invariant
            n == s@.len(),
            n == t@.len(),
            0 <= j <= n,
            forall|k: int| 0 <= k < j ==> s@[k] == t@[k],
        decreases n - j,
    {
        if s.get_char(j) != t.get_char(j) {
            return false;
        }
        j += 1;
    }
    assert(s@ =~= t@);
    true
}

/// `base` and `rest` joined with the platform separator.
pub open spec fn win_join(base: Seq<char>, rest: Seq<char>) -> Seq<char> {
    base + "\\"@ + rest
}

/// Joins two path segments with a backslash, the platform separator the
/// engine's catalog speaks of.
pub fn join_path(base: &str, rest: &str) -> (r: String)
    ensures
        r@ == base@ + "\\"@ + rest@,
{
    let s = String::from_str(base);
    let s = s.concat("\\");
    let s = s.concat(rest);
    s
}

} // verus!
