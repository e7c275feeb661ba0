//! Verified string tools: substring search, splitting on a pattern, and
//! whitespace trimming, the operations that path splitting and the
//! engine-error adapter are built from.

use vstd::prelude::*;

verus! {

/// The views of a sequence of strings.
pub open spec fn str_views(ss: Seq<String>) -> Seq<Seq<char>> {
    ss.map_values(|s: String| s@)
}

/// Whether `pat` occurs in `s` starting at character index `i`.
pub open spec fn is_match_at(s: Seq<char>, pat: Seq<char>, i: int) -> bool {
    &&& 0 <= i
    &&& i + pat.len() <= s.len()
    &&& forall|j: int| 0 <= j < pat.len() ==> s[i + j] == pat[j]
}

/// The least index `>= from` at which `pat` occurs in `s`, if any.
pub open spec fn find_from(s: Seq<char>, pat: Seq<char>, from: int) -> Option<int>
    decreases s.len() - from,
{
    if from < 0 || from + pat.len() > s.len() {
        None
    } else if is_match_at(s, pat, from) {
        Some(from)
    } else {
        find_from(s, pat, from + 1)
    }
}

pub proof fn lemma_find_from_some(s: Seq<char>, pat: Seq<char>, from: int, d: int)
    requires
        find_from(s, pat, from) == Some(d),
    ensures
        from <= d,
        is_match_at(s, pat, d),
        forall|k: int| from <= k < d ==> !is_match_at(s, pat, k),
    decreases s.len() - from,
{
    if from < 0 || from + pat.len() > s.len() {
    } else if is_match_at(s, pat, from) {
    } else {
        lemma_find_from_some(s, pat, from + 1, d);
    }
}

#[via_fn]
proof fn split_from_decreases(s: Seq<char>, pat: Seq<char>, start: int) {
    match find_from(s, pat, start) {
        Some(d) => lemma_find_from_some(s, pat, start, d),
        None => {},
    }
}

/// The pieces of `s` from index `start` on, split on every occurrence of
/// `pat`, scanning left to right without overlap.
pub open spec fn split_from(s: Seq<char>, pat: Seq<char>, start: int) -> Seq<Seq<char>>
    decreases s.len() - start,
        when 0 <= start && pat.len() >= 1
        via split_from_decreases
{
    match find_from(s, pat, start) {
        None => seq![s.subrange(start, s.len() as int)],
        Some(d) => seq![s.subrange(start, d)] + split_from(s, pat, d + pat.len()),
    }
}

/// The pieces of `s` split on every occurrence of `pat`. With no occurrence
/// the single piece is `s` itself; occurrences at the ends or adjacent to one
/// another contribute empty pieces.
pub open spec fn split_on(s: Seq<char>, pat: Seq<char>) -> Seq<Seq<char>> {
    split_from(s, pat, 0)
}

/// Whether `pat` occurs anywhere in `s`.
pub open spec fn contains_pat(s: Seq<char>, pat: Seq<char>) -> bool {
    find_from(s, pat, 0) is Some
}

/// Whether `pat` occurs in `s` at character index `i`.
fn matches_at(s: &str, pat: &str, i: usize) -> (r: bool)
    requires
        i + pat@.len() <= s@.len(),
    ensures
        r == is_match_at(s@, pat@, i as int),
{
    let n = s.unicode_len();
    let m = pat.unicode_len();
    let mut j: usize = 0;
    while j < m
        invariant
            0 <= j <= m,
            n == s@.len(),
            m == pat@.len(),
            i + m <= n,
            forall|k: int| 0 <= k < j ==> s@[i + k] == pat@[k],
        decreases m - j,
    {
        if s.get_char(i + j) != pat.get_char(j) {
            return false;
        }
        j = j + 1;
    }
    true
}

/// The least character index `>= from` at which `pat` occurs in `s`.
pub fn find_pat_from(s: &str, pat: &str, from: usize) -> (r: Option<usize>)
    requires
        pat@.len() >= 1,
    ensures
        match r {
            Some(d) => find_from(s@, pat@, from as int) == Some(d as int),
            None => find_from(s@, pat@, from as int) is None,
        },
{
    let n = s.unicode_len();
    let m = pat.unicode_len();
    if m > n || from > n - m {
        return None;
    }
    let mut i: usize = from;
    while i <= n - m
        invariant
            from <= i <= n - m + 1,
            1 <= m <= n,
            n == s@.len(),
            m == pat@.len(),
            find_from(s@, pat@, from as int) == find_from(s@, pat@, i as int),
        decreases n - i,
    {
        if matches_at(s, pat, i) {
            return Some(i);
        }
        i = i + 1;
    }
    None
}

/// Splits `s` on every occurrence of `pat`, scanning left to right.
pub fn split_str(s: &str, pat: &str) -> (r: Vec<String>)
    requires
        pat@.len() >= 1,
    ensures
        str_views(r@) == split_on(s@, pat@),
{
    let n = s.unicode_len();
    let m = pat.unicode_len();
    let mut out: Vec<String> = Vec::new();
    let mut start: usize = 0;
    loop
        invariant_except_break
            0 <= start <= n,
            n == s@.len(),
            m == pat@.len(),
            1 <= m,
            split_on(s@, pat@) == str_views(out@) + split_from(s@, pat@, start as int),
        ensures
            str_views(out@) == split_on(s@, pat@),
        decreases n - start,
    {
        match find_pat_from(s, pat, start) {
            Some(d) => {
                proof {
                    lemma_find_from_some(s@, pat@, start as int, d as int);
                }
                let piece = s.substring_char(start, d).to_owned();
                proof {
                    assert(str_views(out@.push(piece)) =~= str_views(out@).push(piece@));
                    assert(str_views(out@.push(piece)) + split_from(
                        s@,
                        pat@,
                        d + m,
                    ) =~= str_views(out@) + split_from(s@, pat@, start as int));
                }
                out.push(piece);
                start = d + m;
            },
            None => {
                let piece = s.substring_char(start, n).to_owned();
                proof {
                    assert(str_views(out@.push(piece)) =~= str_views(out@).push(piece@));
                    assert(str_views(out@.push(piece)) =~= str_views(out@) + split_from(
                        s@,
                        pat@,
                        start as int,
                    ));
                }
                out.push(piece);
                break ;
            },
        }
    }
    out
}

/// The characters that trimming removes: those with the Unicode `White_Space`
/// property.
pub open spec fn is_ws_char(c: char) -> bool {
    let u = c as u32;
    u == 0x20 || (0x09 <= u && u <= 0x0D) || u == 0x85 || u == 0xA0 || u == 0x1680 || (0x2000 <= u
        && u <= 0x200A) || u == 0x2028 || u == 0x2029 || u == 0x202F || u == 0x205F || u == 0x3000
}

/// Whether `c` has the Unicode `White_Space` property.
pub fn is_whitespace(c: char) -> (r: bool)
    ensures
        r == is_ws_char(c),
{
    let u = c as u32;
    u == 0x20 || (0x09 <= u && u <= 0x0D) || u == 0x85 || u == 0xA0 || u == 0x1680 || (0x2000 <= u
        && u <= 0x200A) || u == 0x2028 || u == 0x2029 || u == 0x202F || u == 0x205F || u == 0x3000
}

/// The least index `>= i` of a non-whitespace character of `s`, or `s.len()`.
pub open spec fn skip_ws_from(s: Seq<char>, i: int) -> int
    decreases s.len() - i,
        when 0 <= i <= s.len()
{
    if i == s.len() {
        i
    } else if is_ws_char(s[i]) {
        skip_ws_from(s, i + 1)
    } else {
        i
    }
}

/// The index just past the last non-whitespace character of `s` before `i`,
/// or `0` when there is none.
pub open spec fn ws_end_from(s: Seq<char>, i: int) -> int
    decreases i,
        when 0 <= i <= s.len()
{
    if i == 0 {
        0
    } else if is_ws_char(s[i - 1]) {
        ws_end_from(s, i - 1)
    } else {
        i
    }
}

/// `s` with leading and trailing whitespace removed.
pub open spec fn trim_spec(s: Seq<char>) -> Seq<char> {
    let a = skip_ws_from(s, 0);
    if a == s.len() {
        Seq::empty()
    } else {
        s.subrange(a, ws_end_from(s, s.len() as int))
    }
}

/// `s` with leading and trailing whitespace removed.
pub fn trim_str(s: &str) -> (r: String)
    ensures
        r@ == trim_spec(s@),
{
    let n = s.unicode_len();
    let mut a: usize = 0;
    while a < n && is_whitespace(s.get_char(a))
        invariant
            0 <= a <= n,
            n == s@.len(),
            skip_ws_from(s@, 0) == skip_ws_from(s@, a as int),
        decreases n - a,
    {
        a = a + 1;
    }
    if a == n {
        return String::new();
    }
    let mut b: usize = n;
    while b > a && is_whitespace(s.get_char(b - 1))
        invariant
            a < b <= n || b == n,
            a < n,
            n == s@.len(),
            !is_ws_char(s@[a as int]),
            ws_end_from(s@, n as int) == ws_end_from(s@, b as int),
        decreases b,
    {
        b = b - 1;
    }
    s.substring_char(a, b).to_owned()
}

} // verus!
