//! Job-record recognition.
//!
//! A remote authority answers an assignment request with free-form text
//! (typically an HTML page) in which the useful lines follow a fixed,
//! versioned grammar.  This module states that grammar once, over character
//! sequences, and extracts every matching span in order of appearance:
//!
//! * a completed-result record: one of the tags `DoubleCheck`, `Test` or
//!   `PRP`, an `=` between optional whitespace, a 32-character uppercase
//!   hexadecimal key, exactly three comma-prefixed unsigned numeric fields,
//!   and optionally three to five further comma-prefixed signed numeric
//!   fields, reaching exactly to the end of its line;
//! * an assignment record of the GPU authority: the fixed head
//!   `Factor=N/A` followed by exactly three comma-prefixed unsigned numeric
//!   fields reaching the end of its line.
//!
//! Within one line the recognized span is the one starting at the leftmost
//! position from which the rest of the line matches; it always extends to
//! the line end, and a line yields at most one record.  Text around the
//! matching lines is ignored, and no match is never an error.

use vstd::prelude::*;
use vstd::string::StrSliceExecFns;
use vstd::string::StringExecFns;
use crate::text::{digit_char, hex_upper_char, is_digit_char, is_hex_upper_char, is_space_char,
    space_char};

verus! {

/// Which authority's record grammar to recognize.
#[derive(Clone, Copy, Debug, PartialEq, Eq, Structural)]
pub enum RecordKind {
    /// Completed-result lines (`DoubleCheck`/`Test`/`PRP` records).
    PrimenetResult,
    /// Assignment lines of the GPU authority (`Factor=N/A` records).
    Gpu72Assignment,
}

/// End of the maximal run of decimal digits starting at `j`, stopping at `e`.
pub open spec fn digit_run_end(t: Seq<char>, j: int, e: int) -> int
    decreases e - j,
{
    if j < e && is_digit_char(t[j]) {
        digit_run_end(t, j + 1, e)
    } else {
        j
    }
}

/// End of the maximal run of whitespace starting at `j`, stopping at `e`.
pub open spec fn ws_run_end(t: Seq<char>, j: int, e: int) -> int
    decreases e - j,
{
    if j < e && is_space_char(t[j]) {
        ws_run_end(t, j + 1, e)
    } else {
        j
    }
}

/// End of one comma-prefixed numeric field starting at `i`: a comma, then
/// (when `allow_sign`) an optional minus, then at least one digit, taken
/// maximally.  `None` when no such field starts at `i`.
pub open spec fn group_end(t: Seq<char>, i: int, e: int, allow_sign: bool) -> Option<int> {
    if i < e && t[i] == ',' {
        let j = if allow_sign && i + 2 < e && t[i + 1] == '-' {
            i + 2
        } else {
            i + 1
        };
        let k = digit_run_end(t, j, e);
        if k > j {
            Some(k)
        } else {
            None
        }
    } else {
        None
    }
}

/// Position after exactly `n` consecutive comma-prefixed numeric fields
/// starting at `i`, or `None` when the text does not offer them.
pub open spec fn groups_end(t: Seq<char>, i: int, e: int, n: nat, allow_sign: bool) -> Option<int>
    decreases n,
{
    if n == 0 {
        Some(i)
    } else {
        match group_end(t, i, e, allow_sign) {
            Some(k) => groups_end(t, k, e, (n - 1) as nat, allow_sign),
            None => None,
        }
    }
}

/// Splitting a field count: `a + b` fields reach the same position as `a`
/// fields followed by `b` more from where those ended.
pub proof fn lemma_groups_end_split(t: Seq<char>, i: int, e: int, a: nat, b: nat, allow_sign: bool)
    ensures
        groups_end(t, i, e, (a + b) as nat, allow_sign) == (match groups_end(t, i, e, a, allow_sign) {
            Some(x) => groups_end(t, x, e, b, allow_sign),
            None => None::<int>,
        }),
    decreases a,
{
    if a > 0 {
        match group_end(t, i, e, allow_sign) {
            Some(k) => {
                lemma_groups_end_split(t, k, e, (a - 1) as nat, b, allow_sign);
            },
            None => {},
        }
    }
}

/// When a greedy walk of the fields from `i` stops at `cur` after `c`
/// fields, any field count that reaches exactly the line end must be that
/// same walk, so `cur` is the line end and `k` equals `c`.
proof fn lemma_terminal_unique(
    t: Seq<char>,
    i: int,
    e: int,
    k: nat,
    c: nat,
    cur: int,
    allow_sign: bool,
)
    requires
        groups_end(t, i, e, k, allow_sign) == Some(e),
        groups_end(t, i, e, c, allow_sign) == Some(cur),
        group_end(t, cur, e, allow_sign) is None,
    ensures
        k == c,
        cur == e,
{
    if k < c {
        lemma_groups_end_split(t, i, e, k, (c - k) as nat, allow_sign);
        assert(groups_end(t, i, e, c, allow_sign) == groups_end(t, e, e, (c - k) as nat, allow_sign));
        assert(group_end(t, e, e, allow_sign) is None);
        assert(groups_end(t, e, e, (c - k) as nat, allow_sign) is None);
    } else if k > c {
        lemma_groups_end_split(t, i, e, c, (k - c) as nat, allow_sign);
        assert(groups_end(t, i, e, k, allow_sign) == groups_end(t, cur, e, (k - c) as nat, allow_sign));
        assert(groups_end(t, cur, e, (k - c) as nat, allow_sign) is None);
    }
}

/// End of the result tag beginning at `p` (`DoubleCheck`, `Test` or `PRP`),
/// or `-1` when none of the tags starts there.
pub open spec fn tag_end_at(t: Seq<char>, p: int, e: int) -> int {
    if p + 11 <= e && t[p] == 'D' && t[p + 1] == 'o' && t[p + 2] == 'u' && t[p + 3] == 'b' && t[p
        + 4] == 'l' && t[p + 5] == 'e' && t[p + 6] == 'C' && t[p + 7] == 'h' && t[p + 8] == 'e' && t[
        p + 9] == 'c' && t[p + 10] == 'k' {
        p + 11
    } else if p + 4 <= e && t[p] == 'T' && t[p + 1] == 'e' && t[p + 2] == 's' && t[p + 3] == 't' {
        p + 4
    } else if p + 3 <= e && t[p] == 'P' && t[p + 1] == 'R' && t[p + 2] == 'P' {
        p + 3
    } else {
        -1
    }
}

/// All characters in `[i, j)` are uppercase hexadecimal digits.
pub open spec fn all_hex(t: Seq<char>, i: int, j: int) -> bool {
    forall|q: int| i <= q < j ==> is_hex_upper_char(#[trigger] t[q])
}

/// After the three required unsigned fields end at `m`: either the line
/// ends there, or three to five signed fields fill the rest of the line.
pub open spec fn opt_signed_tail_ok(t: Seq<char>, m: int, e: int) -> bool {
    m == e || exists|k: nat| 3 <= k <= 5 && groups_end(t, m, e, k, true) == Some(e)
}

/// A completed-result record occupies `[p, e)`: tag, `=` between optional
/// whitespace, 32 uppercase hexadecimal characters, three unsigned fields,
/// and an optional signed tail reaching the line end.
pub open spec fn primenet_match_at(t: Seq<char>, p: int, e: int) -> bool {
    let te = tag_end_at(t, p, e);
    &&& te >= 0
    &&& {
        let q = ws_run_end(t, te, e);
        &&& q < e
        &&& t[q] == '='
        &&& {
            let h = ws_run_end(t, q + 1, e);
            &&& h + 32 <= e
            &&& all_hex(t, h, h + 32)
            &&& (groups_end(t, h + 32, e, 3, false) matches Some(m) && opt_signed_tail_ok(t, m, e))
        }
    }
}

/// A GPU-authority assignment record occupies `[p, e)`: the fixed head
/// `Factor=N/A` and exactly three unsigned fields reaching the line end.
pub open spec fn gpu72_match_at(t: Seq<char>, p: int, e: int) -> bool {
    &&& p + 10 <= e
    &&& t[p] == 'F'
    &&& t[p + 1] == 'a'
    &&& t[p + 2] == 'c'
    &&& t[p + 3] == 't'
    &&& t[p + 4] == 'o'
    &&& t[p + 5] == 'r'
    &&& t[p + 6] == '='
    &&& t[p + 7] == 'N'
    &&& t[p + 8] == '/'
    &&& t[p + 9] == 'A'
    &&& groups_end(t, p + 10, e, 3, false) == Some(e)
}

/// A record of the given kind occupies `[p, e)` of the text.
pub open spec fn match_at(t: Seq<char>, p: int, e: int, kind: RecordKind) -> bool {
    match kind {
        RecordKind::PrimenetResult => primenet_match_at(t, p, e),
        RecordKind::Gpu72Assignment => gpu72_match_at(t, p, e),
    }
}

/// Leftmost position in `[p, e)` at which a record of the given kind
/// starts, if any.
pub open spec fn first_match_from(t: Seq<char>, p: int, e: int, kind: RecordKind) -> Option<int>
    decreases e - p,
{
    if p >= e {
        None
    } else if match_at(t, p, e, kind) {
        Some(p)
    } else {
        first_match_from(t, p + 1, e, kind)
    }
}

/// Position of the next line break at or after `a`, or the text end.
pub open spec fn find_nl(t: Seq<char>, a: int) -> int
    decreases t.len() - a,
{
    if a < t.len() {
        if t[a] == '\n' {
            a
        } else {
            find_nl(t, a + 1)
        }
    } else {
        t.len() as int
    }
}

pub proof fn lemma_find_nl_bounds(t: Seq<char>, a: int)
    requires
        a <= t.len(),
    ensures
        a <= find_nl(t, a) <= t.len(),
    decreases t.len() - a,
{
    if a < t.len() && t[a] != '\n' {
        lemma_find_nl_bounds(t, a + 1);
    }
}

/// The records recognized in `t` from line start `a` to the end of the
/// text, one per matching line, in order of appearance, each trimmed to
/// its matched span.
pub open spec fn spec_extract_from(t: Seq<char>, a: int, kind: RecordKind) -> Seq<Seq<char>>
    decreases t.len() - a,
    via spec_extract_from_dec
{
    if a > t.len() {
        Seq::empty()
    } else {
        let e = find_nl(t, a);
        let here = match first_match_from(t, a, e, kind) {
            Some(p) => seq![t.subrange(p, e)],
            None => Seq::empty(),
        };
        if e >= t.len() {
            here
        } else {
            here + spec_extract_from(t, e + 1, kind)
        }
    }
}

#[via_fn]
proof fn spec_extract_from_dec(t: Seq<char>, a: int, kind: RecordKind) {
    if a <= t.len() {
        lemma_find_nl_bounds(t, a);
    }
}

/// Every record of the given kind recognized anywhere in `t`, in order.
pub open spec fn spec_extract(t: Seq<char>, kind: RecordKind) -> Seq<Seq<char>> {
    spec_extract_from(t, 0, kind)
}

pub(crate) fn digit_run_exec(v: &Vec<char>, j: usize, e: usize) -> (k: usize)
    requires
        j <= e <= v@.len(),
    ensures
        k == digit_run_end(v@, j as int, e as int),
        j <= k <= e,
{
    let mut k: usize = j;
    while k < e && digit_char(v[k])
        invariant
            j <= k <= e <= v@.len(),
            digit_run_end(v@, j as int, e as int) == digit_run_end(v@, k as int, e as int),
        decreases e - k,
    {
        k = k + 1;
    }
    k
}

fn ws_run_exec(v: &Vec<char>, j: usize, e: usize) -> (k: usize)
    requires
        j <= e <= v@.len(),
    ensures
        k == ws_run_end(v@, j as int, e as int),
        j <= k <= e,
{
    let mut k: usize = j;
    while k < e && space_char(v[k])
        invariant
            j <= k <= e <= v@.len(),
            ws_run_end(v@, j as int, e as int) == ws_run_end(v@, k as int, e as int),
        decreases e - k,
    {
        k = k + 1;
    }
    k
}

fn group_end_exec(v: &Vec<char>, i: usize, e: usize, allow_sign: bool) -> (r: Option<usize>)
    requires
        i <= e <= v@.len(),
    ensures
        match r {
            Some(k) => group_end(v@, i as int, e as int, allow_sign) == Some(k as int) && i < k
                <= e,
            None => group_end(v@, i as int, e as int, allow_sign) is None,
        },
{
    if i < e && v[i] == ',' {
        let j: usize = if allow_sign && e - i > 2 && v[i + 1] == '-' {
            i + 2
        } else {
            i + 1
        };
        let k = digit_run_exec(v, j, e);
        if k > j {
            Some(k)
        } else {
            None
        }
    } else {
        None
    }
}

/// Greedy walk of the signed fields from `m`: how many consecutive fields
/// there are and where the walk stops.
fn count_groups_exec(v: &Vec<char>, m: usize, e: usize, allow_sign: bool) -> (r: (usize, usize))
    requires
        m <= e <= v@.len(),
    ensures
        groups_end(v@, m as int, e as int, r.0 as nat, allow_sign) == Some(r.1 as int),
        group_end(v@, r.1 as int, e as int, allow_sign) is None,
        m <= r.1 <= e,
{
    let mut count: usize = 0;
    let mut cur: usize = m;
    loop
        invariant
            m <= cur <= e <= v@.len(),
            count <= cur,
            groups_end(v@, m as int, e as int, count as nat, allow_sign) == Some(cur as int),
        decreases e - cur,
    {
        match group_end_exec(v, cur, e, allow_sign) {
            None => {
                return (count, cur);
            },
            Some(k) => {
                proof {
                    lemma_groups_end_split(v@, m as int, e as int, count as nat, 1nat, allow_sign);
                    assert(groups_end(v@, k as int, e as int, 0nat, allow_sign) == Some(k as int));
                }
                count = count + 1;
                cur = k;
            },
        }
    }
}

fn match_at_exec(v: &Vec<char>, p: usize, e: usize, kind: RecordKind) -> (b: bool)
    requires
        p <= e <= v@.len(),
    ensures
        b == match_at(v@, p as int, e as int, kind),
{
    match kind {
        RecordKind::PrimenetResult => primenet_match_exec(v, p, e),
        RecordKind::Gpu72Assignment => gpu72_match_exec(v, p, e),
    }
}

#[verifier::loop_isolation(false)]
fn primenet_match_exec(v: &Vec<char>, p: usize, e: usize) -> (b: bool)
    requires
        p <= e <= v@.len(),
    ensures
        b == primenet_match_at(v@, p as int, e as int),
{
    let te: usize = if e - p >= 11 && v[p] == 'D' && v[p + 1] == 'o' && v[p + 2] == 'u' && v[p + 3]
        == 'b' && v[p + 4] == 'l' && v[p + 5] == 'e' && v[p + 6] == 'C' && v[p + 7] == 'h' && v[p
        + 8] == 'e' && v[p + 9] == 'c' && v[p + 10] == 'k' {
        p + 11
    } else if e - p >= 4 && v[p] == 'T' && v[p + 1] == 'e' && v[p + 2] == 's' && v[p + 3] == 't' {
        p + 4
    } else if e - p >= 3 && v[p] == 'P' && v[p + 1] == 'R' && v[p + 2] == 'P' {
        p + 3
    } else {
        assert(tag_end_at(v@, p as int, e as int) == -1);
        return false;
    };
    assert(tag_end_at(v@, p as int, e as int) == te);
    let q = ws_run_exec(v, te, e);
    if !(q < e && v[q] == '=') {
        return false;
    }
    let h = ws_run_exec(v, q + 1, e);
    if e - h < 32 {
        return false;
    }
    let mut x: usize = h;
    while x < h + 32
        invariant
            h <= x <= h + 32 <= e <= v@.len(),
            all_hex(v@, h as int, x as int),
        decreases h + 32 - x,
    {
        if !hex_upper_char(v[x]) {
            return false;
        }
        x = x + 1;
    }
    let g1 = match group_end_exec(v, h + 32, e, false) {
        Some(k) => k,
        None => {
            return false;
        },
    };
    let g2 = match group_end_exec(v, g1, e, false) {
        Some(k) => k,
        None => {
            assert(groups_end(v@, g1 as int, e as int, 2, false) is None);
            assert(groups_end(v@, h + 32, e as int, 3, false) is None);
            return false;
        },
    };
    let m = match group_end_exec(v, g2, e, false) {
        Some(k) => k,
        None => {
            assert(groups_end(v@, g2 as int, e as int, 1, false) is None);
            assert(groups_end(v@, g1 as int, e as int, 2, false) is None);
            assert(groups_end(v@, h + 32, e as int, 3, false) is None);
            return false;
        },
    };
    assert(groups_end(v@, m as int, e as int, 0, false) == Some(m as int));
    assert(groups_end(v@, g2 as int, e as int, 1, false) == Some(m as int));
    assert(groups_end(v@, g1 as int, e as int, 2, false) == Some(m as int));
    assert(groups_end(v@, h + 32, e as int, 3, false) == Some(m as int));
    if m == e {
        return true;
    }
    let (count, cur) = count_groups_exec(v, m, e, true);
    let ok = cur == e && count >= 3 && count <= 5;
    proof {
        if !ok {
            assert forall|k: nat| 3 <= k <= 5 implies groups_end(v@, m as int, e as int, k, true)
                != Some(e as int) by {
                if groups_end(v@, m as int, e as int, k, true) == Some(e as int) {
                    lemma_terminal_unique(v@, m as int, e as int, k, count as nat, cur as int, true);
                }
            }
        }
    }
    ok
}

fn gpu72_match_exec(v: &Vec<char>, p: usize, e: usize) -> (b: bool)
    requires
        p <= e <= v@.len(),
    ensures
        b == gpu72_match_at(v@, p as int, e as int),
{
    if !(e - p >= 10 && v[p] == 'F' && v[p + 1] == 'a' && v[p + 2] == 'c' && v[p + 3] == 't' && v[p
        + 4] == 'o' && v[p + 5] == 'r' && v[p + 6] == '=' && v[p + 7] == 'N' && v[p + 8] == '/'
        && v[p + 9] == 'A') {
        return false;
    }
    let g1 = match group_end_exec(v, p + 10, e, false) {
        Some(k) => k,
        None => {
            return false;
        },
    };
    let g2 = match group_end_exec(v, g1, e, false) {
        Some(k) => k,
        None => {
            assert(groups_end(v@, g1 as int, e as int, 2, false) is None);
            assert(groups_end(v@, p + 10, e as int, 3, false) is None);
            return false;
        },
    };
    let g3 = match group_end_exec(v, g2, e, false) {
        Some(k) => k,
        None => {
            assert(groups_end(v@, g2 as int, e as int, 1, false) is None);
            assert(groups_end(v@, g1 as int, e as int, 2, false) is None);
            assert(groups_end(v@, p + 10, e as int, 3, false) is None);
            return false;
        },
    };
    assert(groups_end(v@, g3 as int, e as int, 0, false) == Some(g3 as int));
    assert(groups_end(v@, g2 as int, e as int, 1, false) == Some(g3 as int));
    assert(groups_end(v@, g1 as int, e as int, 2, false) == Some(g3 as int));
    assert(groups_end(v@, p + 10, e as int, 3, false) == Some(g3 as int));
    g3 == e
}

fn first_match_exec(v: &Vec<char>, a: usize, e: usize, kind: RecordKind) -> (r: Option<usize>)
    requires
        a <= e <= v@.len(),
    ensures
        match r {
            Some(p) => first_match_from(v@, a as int, e as int, kind) == Some(p as int) && a <= p
                < e,
            None => first_match_from(v@, a as int, e as int, kind) is None,
        },
{
    let mut p: usize = a;
    while p < e
        invariant
            a <= p <= e <= v@.len(),
            first_match_from(v@, a as int, e as int, kind) == first_match_from(
                v@,
                p as int,
                e as int,
                kind,
            ),
        decreases e - p,
    {
        if match_at_exec(v, p, e, kind) {
            return Some(p);
        }
        p = p + 1;
    }
    None
}

fn scan_nl(v: &Vec<char>, a: usize) -> (e: usize)
    requires
        a <= v@.len(),
    ensures
        e == find_nl(v@, a as int),
        a <= e <= v@.len(),
{
    let n: usize = v.len();
    let mut i: usize = a;
    while i < n && v[i] != '\n'
        invariant
            a <= i <= n,
            n == v@.len(),
            find_nl(v@, a as int) == find_nl(v@, i as int),
        decreases n - i,
    {
        i = i + 1;
    }
    i
}

/// Scan arbitrary text and return every substring that matches the given
/// record grammar, in order of appearance, each trimmed to just the
/// matched span.  Text that matches nowhere yields an empty list, never an
/// error.
pub fn extract_records(text: &str, kind: RecordKind) -> (r: Vec<String>)
    ensures
        r.deep_view() == spec_extract(text@, kind),
{
    let v = crate::text::str_to_chars(text);
    let n: usize = v.len();
    let mut out: Vec<String> = Vec::new();
    let mut a: usize = 0;
    loop
        invariant_except_break
            spec_extract(text@, kind) =~= out.deep_view() + spec_extract_from(text@, a as int, kind),
        invariant
            v@ == text@,
            n == v@.len(),
            a <= n,
        ensures
            spec_extract(text@, kind) =~= out.deep_view(),
        decreases n - a,
    {
        let e = scan_nl(&v, a);
        let ghost here = match first_match_from(v@, a as int, e as int, kind) {
            Some(p) => seq![v@.subrange(p, e as int)],
            None => Seq::<Seq<char>>::empty(),
        };
        match first_match_exec(&v, a, e, kind) {
            Some(p) => {
                let rec = text.substring_char(p, e);
                let ghost pre = out.deep_view();
                out.push(String::from_str(rec));
                proof {
                    assert(out.deep_view() =~= pre + here);
                }
            },
            None => {},
        }
        if e == n {
            proof {
                assert(spec_extract_from(text@, a as int, kind) == here);
                assert(spec_extract(text@, kind) =~= out.deep_view());
            }
            break;
        }
        proof {
            assert(spec_extract_from(text@, a as int, kind) =~= here + spec_extract_from(
                text@,
                e + 1,
                kind,
            ));
        }
        a = e + 1;
    }
    assert(spec_extract(text@, kind) =~= out.deep_view());
    out
}

} // verus!
