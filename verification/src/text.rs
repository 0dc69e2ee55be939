//! Character-level text helpers shared by the record grammar, the response
//! classifier and the validators.

use vstd::prelude::*;
use vstd::string::StrSliceExecFns;

verus! {

/// ASCII decimal digit.
pub open spec fn is_digit_char(c: char) -> bool {
    '0' <= c && c <= '9'
}

/// Uppercase hexadecimal digit (the only form the record grammar admits).
pub open spec fn is_hex_upper_char(c: char) -> bool {
    is_digit_char(c) || ('A' <= c && c <= 'F')
}

/// Unicode whitespace, as the record grammar's separator class.
pub open spec fn is_space_char(c: char) -> bool {
    c == ' ' || c == '\t' || c == '\n' || c == '\r' || c == '\u{0B}' || c == '\u{0C}'
        || c == '\u{85}' || c == '\u{A0}' || c == '\u{1680}' || ('\u{2000}' <= c && c
        <= '\u{200A}') || c == '\u{2028}' || c == '\u{2029}' || c == '\u{202F}' || c == '\u{205F}'
        || c == '\u{3000}'
}

pub fn digit_char(c: char) -> (b: bool)
    ensures
        b == is_digit_char(c),
{
    '0' <= c && c <= '9'
}

pub fn hex_upper_char(c: char) -> (b: bool)
    ensures
        b == is_hex_upper_char(c),
{
    ('0' <= c && c <= '9') || ('A' <= c && c <= 'F')
}

pub fn space_char(c: char) -> (b: bool)
    ensures
        b == is_space_char(c),
{
    c == ' ' || c == '\t' || c == '\n' || c == '\r' || c == '\u{0B}' || c == '\u{0C}'
        || c == '\u{85}' || c == '\u{A0}' || c == '\u{1680}' || ('\u{2000}' <= c && c
        <= '\u{200A}') || c == '\u{2028}' || c == '\u{2029}' || c == '\u{202F}' || c == '\u{205F}'
        || c == '\u{3000}'
}

/// The characters of `s`, in order, as an indexable vector.
pub fn str_to_chars(s: &str) -> (v: Vec<char>)
    ensures
        v@ == s@,
{
    let n: usize = s.unicode_len();
    let mut v: Vec<char> = Vec::new();
    let mut i: usize = 0;
    while i < n
        invariant
            n == s@.len(),
            i <= n,
            v@ == s@.subrange(0, i as int),
        decreases n - i,
    {
        v.push(s.get_char(i));
        i = i + 1;
        assert(v@ =~= s@.subrange(0, i as int));
    }
    assert(v@ =~= s@);
    v
}

/// `pat` occurs in `t` starting exactly at position `i`.
pub open spec fn occurs_at(t: Seq<char>, pat: Seq<char>, i: int) -> bool {
    &&& 0 <= i
    &&& i + pat.len() <= t.len()
    &&& forall|j: int| 0 <= j < pat.len() ==> t[i + j] == pat[j]
}

/// Position of the first occurrence of `pat` in `t` at or after `from`.
pub open spec fn spec_find(t: Seq<char>, pat: Seq<char>, from: int) -> Option<int>
    decreases t.len() - from,
{
    if from < 0 || from + pat.len() > t.len() {
        None
    } else if occurs_at(t, pat, from) {
        Some(from)
    } else {
        spec_find(t, pat, from + 1)
    }
}

pub proof fn lemma_spec_find_bounds(t: Seq<char>, pat: Seq<char>, from: int)
    requires
        spec_find(t, pat, from) is Some,
    ensures
        from <= spec_find(t, pat, from).unwrap(),
        spec_find(t, pat, from).unwrap() + pat.len() <= t.len(),
        occurs_at(t, pat, spec_find(t, pat, from).unwrap()),
    decreases t.len() - from,
{
    if !(from < 0 || from + pat.len() > t.len()) && !occurs_at(t, pat, from) {
        lemma_spec_find_bounds(t, pat, from + 1);
    }
}

fn occurs_here(t: &Vec<char>, pat: &Vec<char>, i: usize) -> (b: bool)
    requires
        i + pat@.len() <= t@.len(),
    ensures
        b == occurs_at(t@, pat@, i as int),
{
    let n: usize = t.len();
    let m: usize = pat.len();
    let mut j: usize = 0;
    while j < m
        invariant
            n == t@.len(),
            m == pat@.len(),
            i + m <= t@.len(),
            j <= m,
            forall|k: int| 0 <= k < j ==> t@[i + k] == pat@[k],
        decreases m - j,
    {
        if t[i + j] != pat[j] {
            return false;
        }
        j = j + 1;
    }
    true
}

/// First occurrence of `pat` in `t` at or after `from`, if any.
pub fn find_sub(t: &Vec<char>, pat: &Vec<char>, from: usize) -> (r: Option<usize>)
    ensures
        match r {
            Some(k) => spec_find(t@, pat@, from as int) == Some(k as int),
            None => spec_find(t@, pat@, from as int) is None,
        },
{
    let n: usize = t.len();
    let m: usize = pat.len();
    if m > n || from > n - m {
        return None;
    }
    let mut i: usize = from;
    while i <= n - m
        invariant
            n == t@.len(),
            m == pat@.len(),
            m <= n,
            from <= i <= n - m + 1,
            spec_find(t@, pat@, from as int) == spec_find(t@, pat@, i as int),
        decreases n - i,
    {
        if occurs_here(t, pat, i) {
            return Some(i);
        }
        i = i + 1;
    }
    None
}

/// `s` ends with the suffix `suf`.
pub open spec fn spec_ends_with(s: Seq<char>, suf: Seq<char>) -> bool {
    s.len() >= suf.len() && occurs_at(s, suf, s.len() - suf.len())
}

/// Whether `t` ends with `pat`.
pub fn ends_with_sub(t: &Vec<char>, pat: &Vec<char>) -> (b: bool)
    ensures
        b == spec_ends_with(t@, pat@),
{
    let n: usize = t.len();
    let m: usize = pat.len();
    if m > n {
        false
    } else {
        occurs_here(t, pat, n - m)
    }
}

/// Membership of one line among a sequence of lines.
pub open spec fn line_in(lines: Seq<Seq<char>>, x: Seq<char>) -> bool {
    exists|i: int| 0 <= i < lines.len() && lines[i] == x
}

/// Whether `x` appears verbatim among the lines of `v`.
pub fn vec_has_line(v: &Vec<String>, x: &String) -> (b: bool)
    ensures
        b == line_in(v.deep_view(), x@),
{
    let n: usize = v.len();
    let mut i: usize = 0;
    while i < n
        invariant
            n == v@.len(),
            i <= n,
            forall|k: int| 0 <= k < i ==> v.deep_view()[k] != x@,
        decreases n - i,
    {
        assert(v.deep_view()[i as int] == v@[i as int]@);
        if string_eq(&v[i], x) {
            return true;
        }
        i = i + 1;
    }
    false
}

/// View-level equality of two strings.
pub fn string_eq(a: &String, b: &String) -> (r: bool)
    ensures
        r == (a@ == b@),
{
    a.eq(b)
}

} // verus!
