//! Character-level text utilities shared by the validators and builders.
//!
//! Everything here works on `Seq<char>` in specifications and on `Vec<char>`
//! or `&str` in executable code.
use vstd::prelude::*;

verus! {

/// Appends a character to a `String` (std's `String::push`).
/// Claimed: the string afterwards holds its former characters followed by `ch`.
pub assume_specification[ String::push ](s: &mut String, ch: char)
    ensures
        final(s)@ == old(s)@.push(ch),
;

/// Name for what `str::to_lowercase` returns on a string's characters
/// (the Unicode lowercase mapping of std).
pub uninterp spec fn lowercased(s: Seq<char>) -> Seq<char>;

/// Name for what `str::to_uppercase` returns on a string's characters
/// (the Unicode uppercase mapping of std).
pub uninterp spec fn uppercased(s: Seq<char>) -> Seq<char>;

/// Calls std's `str::to_lowercase`. Claimed: the result is `lowercased` of the
/// argument's characters; the mapping itself is left unstated.
#[verifier::external_body]
pub(crate) fn to_lower(s: &str) -> (r: String)
    ensures
        r@ == lowercased(s@),
{
    s.to_lowercase()
}

/// Calls std's `str::to_uppercase`. Claimed: the result is `uppercased` of the
/// argument's characters; the mapping itself is left unstated.
#[verifier::external_body]
pub(crate) fn to_upper(s: &str) -> (r: String)
    ensures
        r@ == uppercased(s@),
{
    s.to_uppercase()
}

/// Rust's `char::is_whitespace`: the Unicode `White_Space` property.
pub open spec fn is_ws(c: char) -> bool {
    ||| ('\u{9}' <= c && c <= '\u{d}')
    ||| c == ' '
    ||| c == '\u{85}'
    ||| c == '\u{a0}'
    ||| c == '\u{1680}'
    ||| ('\u{2000}' <= c && c <= '\u{200a}')
    ||| c == '\u{2028}'
    ||| c == '\u{2029}'
    ||| c == '\u{202f}'
    ||| c == '\u{205f}'
    ||| c == '\u{3000}'
}

/// Executable `is_ws`.
pub fn is_whitespace(c: char) -> (r: bool)
    ensures
        r == is_ws(c),
{
    ('\u{9}' <= c && c <= '\u{d}') || c == ' ' || c == '\u{85}' || c == '\u{a0}' || c
        == '\u{1680}' || ('\u{2000}' <= c && c <= '\u{200a}') || c == '\u{2028}' || c
        == '\u{2029}' || c == '\u{202f}' || c == '\u{205f}' || c == '\u{3000}'
}

/// ASCII letter or digit.
pub open spec fn is_alnum(c: char) -> bool {
    ('0' <= c && c <= '9') || ('a' <= c && c <= 'z') || ('A' <= c && c <= 'Z')
}

/// Executable `is_alnum`.
pub fn is_ascii_alnum(c: char) -> (r: bool)
    ensures
        r == is_alnum(c),
{
    ('0' <= c && c <= '9') || ('a' <= c && c <= 'z') || ('A' <= c && c <= 'Z')
}

/// `p` occurs in `s` starting at index `i`.
pub open spec fn matches_at(s: Seq<char>, p: Seq<char>, i: int) -> bool {
    0 <= i && i + p.len() <= s.len() && s.subrange(i, i + p.len()) == p
}

/// `s` begins with `p`.
pub open spec fn has_prefix(s: Seq<char>, p: Seq<char>) -> bool {
    matches_at(s, p, 0)
}

/// `p` occurs somewhere in `s`.
pub open spec fn contains(s: Seq<char>, p: Seq<char>) -> bool {
    exists|i: int| matches_at(s, p, i)
}

/// The first index at or after `i` where `p` occurs in `s`.
pub open spec fn find_from(s: Seq<char>, p: Seq<char>, i: int) -> Option<int>
    decreases s.len() + 1 - i,
{
    if i < 0 || i + p.len() > s.len() {
        None
    } else if matches_at(s, p, i) {
        Some(i)
    } else {
        find_from(s, p, i + 1)
    }
}

/// The first index where `p` occurs in `s`.
pub open spec fn find(s: Seq<char>, p: Seq<char>) -> Option<int> {
    find_from(s, p, 0)
}

/// `find_from` returns the first occurrence, and `None` exactly when there is none.
pub proof fn lemma_find_from(s: Seq<char>, p: Seq<char>, i: int)
    requires
        0 <= i,
    ensures
        find_from(s, p, i) matches Some(k) ==> i <= k && matches_at(s, p, k) && forall|j: int|
            i <= j < k ==> !matches_at(s, p, j),
        find_from(s, p, i) is None ==> forall|j: int| i <= j ==> !matches_at(s, p, j),
    decreases s.len() + 1 - i,
{
    if i + p.len() <= s.len() && !matches_at(s, p, i) {
        assert(i <= s.len());
        lemma_find_from(s, p, i + 1);
        assert forall|j: int| i <= j && #[trigger] matches_at(s, p, j) implies find_from(
            s,
            p,
            i,
        ) is Some by {
            if j == i {
            }
        }
    }
}

/// `contains` agrees with `find`.
pub proof fn lemma_contains_find(s: Seq<char>, p: Seq<char>)
    ensures
        contains(s, p) <==> find(s, p) is Some,
{
    lemma_find_from(s, p, 0);
    if find(s, p) is Some {
        assert(matches_at(s, p, find(s, p)->0));
    }
}

/// The first index at or after `i` where `s` holds `c`.
pub open spec fn index_of_from(s: Seq<char>, c: char, i: int) -> Option<int>
    decreases s.len() - i,
{
    if i < 0 || i >= s.len() {
        None
    } else if s[i] == c {
        Some(i)
    } else {
        index_of_from(s, c, i + 1)
    }
}

/// Whether `p` occurs in `v` at index `i`.
pub fn matches_at_exec(v: &Vec<char>, p: &Vec<char>, i: usize) -> (r: bool)
    ensures
        r == matches_at(v@, p@, i as int),
{
    if p.len() > v.len() || i > v.len() - p.len() {
        return false;
    }
    let mut k: usize = 0;
    while k < p.len()
        invariant
            k <= p.len(),
            i + p.len() <= v.len(),
            v@.subrange(i as int, i + k) == p@.take(k as int),
        decreases p.len() - k,
    {
        if v[i + k] != p[k] {
            assert(v@.subrange(i as int, i + p.len())[k as int] != p@[k as int]);
            return false;
        }
        assert(v@.subrange(i as int, i + k + 1) =~= v@.subrange(i as int, i + k).push(v@[i + k]));
        assert(p@.take(k + 1) =~= p@.take(k as int).push(p@[k as int]));
        k = k + 1;
    }
    assert(p@.take(p.len() as int) =~= p@);
    true
}

/// The first index at or after `start` where `p` occurs in `v`.
pub fn find_from_exec(v: &Vec<char>, p: &Vec<char>, start: usize) -> (r: Option<usize>)
    ensures
        match r {
            Some(k) => find_from(v@, p@, start as int) == Some(k as int),
            None => find_from(v@, p@, start as int) is None,
        },
{
    if start > v.len() {
        return None;
    }
    if p.len() == 0 {
        assert(v@.subrange(start as int, start as int) =~= p@);
        return Some(start);
    }
    let mut k = start;
    while k < v.len() && p.len() <= v.len() - k
        invariant
            start <= k,
            k <= v.len(),
            p.len() > 0,
            find_from(v@, p@, start as int) == find_from(v@, p@, k as int),
        decreases v.len() + 1 - k,
    {
        if matches_at_exec(v, p, k) {
            return Some(k);
        }
        k = k + 1;
    }
    None
}

/// Whether `p` occurs in `v`.
pub fn contains_exec(v: &Vec<char>, p: &Vec<char>) -> (r: bool)
    ensures
        r == contains(v@, p@),
{
    proof {
        lemma_contains_find(v@, p@);
    }
    find_from_exec(v, p, 0).is_some()
}

/// The characters of `s`, in order.
pub fn chars_of(s: &str) -> (r: Vec<char>)
    ensures
        r@ == s@,
{
    let mut r: Vec<char> = Vec::new();
    for c in it: s.chars()
        invariant
            r@ == it.seq().take(it.index() as int),
    {
        r.push(c);
    }
    r
}

/// A `String` holding exactly the characters of `v`.
pub fn string_of(v: &[char]) -> (r: String)
    ensures
        r@ == v@,
{
    let mut r = String::new();
    let mut i: usize = 0;
    while i < v.len()
        invariant
            i <= v.len(),
            r@ == v@.take(i as int),
        decreases v.len() - i,
    {
        r.push(v[i]);
        assert(v@.take(i + 1) =~= v@.take(i as int).push(v@[i as int]));
        i = i + 1;
    }
    assert(v@.take(v.len() as int) =~= v@);
    r
}

/// A `String` holding the characters `v[lo..hi]`.
pub fn substring_of(v: &Vec<char>, lo: usize, hi: usize) -> (r: String)
    requires
        lo <= hi <= v@.len(),
    ensures
        r@ == v@.subrange(lo as int, hi as int),
{
    let mut r = String::new();
    let mut i = lo;
    while i < hi
        invariant
            lo <= i <= hi <= v@.len(),
            r@ == v@.subrange(lo as int, i as int),
        decreases hi - i,
    {
        r.push(v[i]);
        assert(v@.subrange(lo as int, i + 1) =~= v@.subrange(lo as int, i as int).push(v@[i as int]));
        i = i + 1;
    }
    r
}

/// Whether `s` has no characters.
pub fn is_empty_text(s: &str) -> (r: bool)
    ensures
        r == (s@.len() == 0),
{
    let mut it = s.chars();
    it.next().is_none()
}

/// Character-wise equality of two strings.
pub fn str_eq(a: &str, b: &str) -> (r: bool)
    ensures
        r == (a@ == b@),
{
    let x = a.to_owned();
    let y = b.to_owned();
    x == y
}

/// Appends the characters of `t` to `s`.
pub fn push_str(s: &mut String, t: &str)
    ensures
        final(s)@ == old(s)@ + t@,
{
    let v = chars_of(t);
    let ghost s0 = s@;
    let mut i: usize = 0;
    while i < v.len()
        invariant
            i <= v.len(),
            v@ == t@,
            s@ == s0 + v@.take(i as int),
        decreases v.len() - i,
    {
        s.push(v[i]);
        assert(v@.take(i + 1) =~= v@.take(i as int).push(v@[i as int]));
        i = i + 1;
    }
    assert(v@.take(v.len() as int) =~= v@);
}

/// The first index at or after `i` that does not hold whitespace (or `s.len()`).
pub open spec fn skip_ws_from(s: Seq<char>, i: int) -> int
    decreases s.len() - i,
{
    if 0 <= i < s.len() && is_ws(s[i]) {
        skip_ws_from(s, i + 1)
    } else {
        i
    }
}

/// The end of `s.subrange(lo, e)` once trailing whitespace is dropped.
pub open spec fn trim_end_from(s: Seq<char>, lo: int, e: int) -> int
    decreases e - lo,
{
    if lo < e && e <= s.len() && is_ws(s[e - 1]) {
        trim_end_from(s, lo, e - 1)
    } else {
        e
    }
}

/// `str::trim`: `s` without leading and trailing whitespace.
pub open spec fn trim(s: Seq<char>) -> Seq<char> {
    let a = skip_ws_from(s, 0);
    s.subrange(a, trim_end_from(s, a, s.len() as int))
}

pub proof fn lemma_skip_ws_from(s: Seq<char>, i: int)
    requires
        0 <= i <= s.len(),
    ensures
        i <= skip_ws_from(s, i) <= s.len(),
        forall|k: int| i <= k < skip_ws_from(s, i) ==> is_ws(#[trigger] s[k]),
        skip_ws_from(s, i) < s.len() ==> !is_ws(s[skip_ws_from(s, i)]),
    decreases s.len() - i,
{
    if i < s.len() && is_ws(s[i]) {
        lemma_skip_ws_from(s, i + 1);
    }
}

pub proof fn lemma_trim_end_from(s: Seq<char>, lo: int, e: int)
    requires
        0 <= lo <= e <= s.len(),
    ensures
        lo <= trim_end_from(s, lo, e) <= e,
        forall|k: int| trim_end_from(s, lo, e) <= k < e ==> is_ws(#[trigger] s[k]),
        lo < trim_end_from(s, lo, e) ==> !is_ws(s[trim_end_from(s, lo, e) - 1]),
    decreases e - lo,
{
    if lo < e && is_ws(s[e - 1]) {
        lemma_trim_end_from(s, lo, e - 1);
    }
}

/// The first index at or after `i` that does not hold whitespace.
pub fn skip_ws_exec(v: &Vec<char>, i: usize) -> (r: usize)
    requires
        i <= v.len(),
    ensures
        r == skip_ws_from(v@, i as int),
{
    let mut k = i;
    while k < v.len() && is_whitespace(v[k])
        invariant
            i <= k <= v.len(),
            skip_ws_from(v@, i as int) == skip_ws_from(v@, k as int),
        decreases v.len() - k,
    {
        k = k + 1;
    }
    k
}

/// `str::trim` on a character vector.
pub fn trim_exec(v: &Vec<char>) -> (r: Vec<char>)
    ensures
        r@ == trim(v@),
{
    let a = skip_ws_exec(v, 0);
    proof {
        lemma_skip_ws_from(v@, 0);
    }
    let mut e = v.len();
    while a < e && is_whitespace(v[e - 1])
        invariant
            a <= e <= v.len(),
            a == skip_ws_from(v@, 0),
            trim_end_from(v@, a as int, v.len() as int) == trim_end_from(v@, a as int, e as int),
        decreases e - a,
    {
        e = e - 1;
    }
    let mut r: Vec<char> = Vec::new();
    let mut k = a;
    while k < e
        invariant
            a <= k <= e <= v.len(),
            r@ == v@.subrange(a as int, k as int),
        decreases e - k,
    {
        r.push(v[k]);
        assert(v@.subrange(a as int, k + 1) =~= v@.subrange(a as int, k as int).push(v@[k as int]));
        k = k + 1;
    }
    r
}

} // verus!
