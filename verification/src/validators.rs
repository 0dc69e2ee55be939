//! Validation of raw command-line values, stated as exact grammars.

use vstd::prelude::*;
use vstd::string::StringExecFns;
use crate::records::{digit_run_end, digit_run_exec};
use crate::text::{digit_char, ends_with_sub, is_digit_char, spec_ends_with, str_to_chars};

verus! {

/// Some entry in the list ends with the given file-name suffix.
pub open spec fn has_entry_with_suffix(files: Seq<Seq<char>>, suf: Seq<char>) -> bool {
    exists|i: int| 0 <= i < files.len() && spec_ends_with(#[trigger] files[i], suf)
}

proof fn lemma_entry_suffix_step(files: Seq<Seq<char>>, i: int, suf: Seq<char>)
    requires
        0 <= i < files.len(),
    ensures
        has_entry_with_suffix(files.take(i + 1), suf) == (has_entry_with_suffix(
            files.take(i),
            suf,
        ) || spec_ends_with(files[i], suf)),
{
    let pre = files.take(i);
    let cur = files.take(i + 1);
    if has_entry_with_suffix(cur, suf) {
        let k = choose|k: int| 0 <= k < cur.len() && spec_ends_with(cur[k], suf);
        if k < i {
            assert(pre[k] == cur[k]);
            assert(has_entry_with_suffix(pre, suf));
        } else {
            assert(cur[k] == files[i]);
        }
    }
    if has_entry_with_suffix(pre, suf) {
        let k = choose|k: int| 0 <= k < pre.len() && spec_ends_with(pre[k], suf);
        assert(cur[k] == pre[k]);
        assert(has_entry_with_suffix(cur, suf));
    }
    if spec_ends_with(files[i], suf) {
        assert(cur[i] == files[i]);
        assert(has_entry_with_suffix(cur, suf));
    }
}

/// Check a working directory's contents, given the names of its entries:
/// it must offer a `worktodo.txt` or `worktodo.ini`, and a `results.txt`.
/// Each missing piece is named in the error.
pub fn directory_entry_check(dir: &str, files: &Vec<String>) -> (r: Result<(), String>)
    ensures
        r is Ok <==> ((has_entry_with_suffix(files.deep_view(), "worktodo.txt"@)
            || has_entry_with_suffix(files.deep_view(), "worktodo.ini"@)) && has_entry_with_suffix(
            files.deep_view(),
            "results.txt"@,
        )),
        ({
            let work = has_entry_with_suffix(files.deep_view(), "worktodo.txt"@)
                || has_entry_with_suffix(files.deep_view(), "worktodo.ini"@);
            let res = has_entry_with_suffix(files.deep_view(), "results.txt"@);
            &&& (!work && !res ==> (r matches Err(m) && m@ == "Directory '"@ + dir@
                + "' missing worktodo.txt/worktodo.ini and results.txt"@))
            &&& (work && !res ==> (r matches Err(m) && m@ == "Directory '"@ + dir@
                + "' missing results.txt"@))
            &&& (!work && res ==> (r matches Err(m) && m@ == "Directory '"@ + dir@
                + "' missing worktodo.txt/worktodo.ini"@))
        }),
{
    let ghost fs = files.deep_view();
    let txt_pat = str_to_chars("worktodo.txt");
    let ini_pat = str_to_chars("worktodo.ini");
    let res_pat = str_to_chars("results.txt");
    let n: usize = files.len();
    let mut has_txt = false;
    let mut has_ini = false;
    let mut has_res = false;
    let mut i: usize = 0;
    while i < n
        invariant
            n == files@.len(),
            fs == files.deep_view(),
            i <= n,
            txt_pat@ == "worktodo.txt"@,
            ini_pat@ == "worktodo.ini"@,
            res_pat@ == "results.txt"@,
            has_txt == has_entry_with_suffix(fs.take(i as int), "worktodo.txt"@),
            has_ini == has_entry_with_suffix(fs.take(i as int), "worktodo.ini"@),
            has_res == has_entry_with_suffix(fs.take(i as int), "results.txt"@),
        decreases n - i,
    {
        let entry = str_to_chars(files[i].as_str());
        proof {
            assert(entry@ == fs[i as int]);
            lemma_entry_suffix_step(fs, i as int, "worktodo.txt"@);
            lemma_entry_suffix_step(fs, i as int, "worktodo.ini"@);
            lemma_entry_suffix_step(fs, i as int, "results.txt"@);
        }
        if ends_with_sub(&entry, &txt_pat) {
            has_txt = true;
        }
        if ends_with_sub(&entry, &ini_pat) {
            has_ini = true;
        }
        if ends_with_sub(&entry, &res_pat) {
            has_res = true;
        }
        i = i + 1;
    }
    proof {
        assert(fs.take(n as int) =~= fs);
    }
    if (has_txt || has_ini) && has_res {
        Ok(())
    } else if !(has_txt || has_ini) && !has_res {
        let mut msg = String::from_str("Directory '");
        msg.append(dir);
        msg.append("' missing worktodo.txt/worktodo.ini and results.txt");
        proof {
            assert(msg@ =~= "Directory '"@ + dir@
                + "' missing worktodo.txt/worktodo.ini and results.txt"@);
        }
        Err(msg)
    } else if !has_res {
        let mut msg = String::from_str("Directory '");
        msg.append(dir);
        msg.append("' missing results.txt");
        proof {
            assert(msg@ =~= "Directory '"@ + dir@ + "' missing results.txt"@);
        }
        Err(msg)
    } else {
        let mut msg = String::from_str("Directory '");
        msg.append(dir);
        msg.append("' missing worktodo.txt/worktodo.ini");
        proof {
            assert(msg@ =~= "Directory '"@ + dir@ + "' missing worktodo.txt/worktodo.ini"@);
        }
        Err(msg)
    }
}

/// Every character is an ASCII decimal digit.
pub open spec fn all_digit_chars(s: Seq<char>) -> bool {
    forall|i: int| 0 <= i < s.len() ==> is_digit_char(#[trigger] s[i])
}

/// The numeric value of a digit string.
pub open spec fn dec_val(s: Seq<char>) -> int
    decreases s.len(),
{
    if s.len() == 0 {
        0
    } else {
        dec_val(s.drop_last()) * 10 + ((s.last() as u32) - 48)
    }
}

pub proof fn lemma_dec_val_nonneg(s: Seq<char>)
    requires
        all_digit_chars(s),
    ensures
        dec_val(s) >= 0,
    decreases s.len(),
{
    if s.len() > 0 {
        assert(all_digit_chars(s.drop_last()));
        lemma_dec_val_nonneg(s.drop_last());
        assert(is_digit_char(s.last()));
    }
}

/// A longer digit prefix never has a smaller value.
pub proof fn lemma_dec_val_take_mono(s: Seq<char>, i: int, j: int)
    requires
        all_digit_chars(s),
        0 <= i <= j <= s.len(),
    ensures
        dec_val(s.take(i)) <= dec_val(s.take(j)),
    decreases j - i,
{
    if i < j {
        lemma_dec_val_take_mono(s, i, j - 1);
        let pre = s.take(j - 1);
        let cur = s.take(j);
        assert(cur.drop_last() =~= pre);
        assert(all_digit_chars(pre));
        lemma_dec_val_nonneg(pre);
        assert(is_digit_char(cur.last()));
    }
}

/// Accept exactly the strings of ASCII decimal digits whose value fits
/// the machine's word: nonempty, all digits, value at most `usize::MAX`.
pub fn numeric_validator(s: String) -> (r: Result<(), String>)
    ensures
        r is Ok <==> (s@.len() > 0 && all_digit_chars(s@) && dec_val(s@) <= usize::MAX),
        !all_digit_chars(s@) ==> (r matches Err(m) && m@ == "Input '"@ + s@
            + "' is not all ASCII decimal digits."@),
        all_digit_chars(s@) && s@.len() == 0 ==> (r matches Err(m) && m@ == "Invalid number: '"@
            + s@ + "'. Details: cannot parse integer from empty string"@),
        all_digit_chars(s@) && s@.len() > 0 && dec_val(s@) > usize::MAX ==> (r matches Err(m) && m@
            == "Invalid number: '"@ + s@ + "'. Details: number too large to fit in target type"@),
{
    let chars = str_to_chars(s.as_str());
    let n: usize = chars.len();
    let mut i: usize = 0;
    while i < n
        invariant
            chars@ == s@,
            n == s@.len(),
            i <= n,
            forall|k: int| 0 <= k < i ==> is_digit_char(#[trigger] s@[k]),
        decreases n - i,
    {
        if !digit_char(chars[i]) {
            let mut msg = String::from_str("Input '");
            msg.append(s.as_str());
            msg.append("' is not all ASCII decimal digits.");
            proof {
                assert(msg@ =~= "Input '"@ + s@ + "' is not all ASCII decimal digits."@);
            }
            return Err(msg);
        }
        i = i + 1;
    }
    if n == 0 {
        let mut msg = String::from_str("Invalid number: '");
        msg.append(s.as_str());
        msg.append("'. Details: cannot parse integer from empty string");
        proof {
            assert(msg@ =~= "Invalid number: '"@ + s@
                + "'. Details: cannot parse integer from empty string"@);
        }
        return Err(msg);
    }
    let mut val: usize = 0;
    let mut i: usize = 0;
    while i < n
        invariant
            chars@ == s@,
            n == s@.len(),
            n > 0,
            all_digit_chars(s@),
            i <= n,
            val as int == dec_val(s@.take(i as int)),
        decreases n - i,
    {
        proof {
            assert(is_digit_char(s@[i as int]));
        }
        let c = chars[i];
        let d: u32 = (c as u32) - 48;
        let step: Option<usize> = match val.checked_mul(10) {
            Some(v10) => v10.checked_add(d as usize),
            None => None,
        };
        proof {
            assert(s@.take(i + 1).drop_last() =~= s@.take(i as int));
            assert(s@.take(i + 1).last() == s@[i as int]);
        }
        match step {
            Some(v) => {
                val = v;
            },
            None => {
                proof {
                    lemma_dec_val_take_mono(s@, i + 1, n as int);
                    assert(s@.take(n as int) =~= s@);
                }
                let mut msg = String::from_str("Invalid number: '");
                msg.append(s.as_str());
                msg.append("'. Details: number too large to fit in target type");
                proof {
                    assert(msg@ =~= "Invalid number: '"@ + s@
                        + "'. Details: number too large to fit in target type"@);
                }
                return Err(msg);
            },
        }
        i = i + 1;
    }
    proof {
        assert(s@.take(n as int) =~= s@);
    }
    Ok(())
}

/// A character a Primenet username may contain.
pub open spec fn p95_ok_char(c: char) -> bool {
    is_digit_char(c) || ('a' <= c && c <= 'z') || ('A' <= c && c <= 'Z') || c == '-' || c == '_'
}

/// Accept exactly the usernames made of ASCII alphanumerics, `-` and `_`.
pub fn p95_username_validator(s: String) -> (r: Result<(), String>)
    ensures
        r is Ok <==> forall|i: int| 0 <= i < s@.len() ==> p95_ok_char(#[trigger] s@[i]),
        !all_ascii_chars(s@) ==> (r matches Err(m) && m@ == "Username '"@ + s@
            + "' is not ASCII."@),
        all_ascii_chars(s@) && !(forall|i: int| 0 <= i < s@.len() ==> p95_ok_char(
            #[trigger] s@[i],
        )) ==> (r matches Err(m) && m@ == "Username '"@ + s@
            + "' contains a character that is not alphanumeric, '-', or '_'."@),
{
    let chars = str_to_chars(s.as_str());
    let n: usize = chars.len();
    let mut i: usize = 0;
    while i < n
        invariant
            chars@ == s@,
            n == s@.len(),
            i <= n,
            forall|k: int| 0 <= k < i ==> (#[trigger] s@[k] as u32) < 128,
        decreases n - i,
    {
        if (chars[i] as u32) >= 128 {
            let mut msg = String::from_str("Username '");
            msg.append(s.as_str());
            msg.append("' is not ASCII.");
            proof {
                assert(msg@ =~= "Username '"@ + s@ + "' is not ASCII."@);
                assert(!p95_ok_char(s@[i as int]));
            }
            return Err(msg);
        }
        i = i + 1;
    }
    proof {
        assert(all_ascii_chars(s@));
    }
    let mut i: usize = 0;
    while i < n
        invariant
            chars@ == s@,
            n == s@.len(),
            i <= n,
            all_ascii_chars(s@),
            forall|k: int| 0 <= k < i ==> p95_ok_char(#[trigger] s@[k]),
        decreases n - i,
    {
        let c = chars[i];
        let ok = ('0' <= c && c <= '9') || ('a' <= c && c <= 'z') || ('A' <= c && c <= 'Z') || c
            == '-' || c == '_';
        if !ok {
            let mut msg = String::from_str("Username '");
            msg.append(s.as_str());
            msg.append("' contains a character that is not alphanumeric, '-', or '_'.");
            proof {
                assert(msg@ =~= "Username '"@ + s@
                    + "' contains a character that is not alphanumeric, '-', or '_'."@);
            }
            return Err(msg);
        }
        i = i + 1;
    }
    Ok(())
}

/// Every character is ASCII.
pub open spec fn all_ascii_chars(s: Seq<char>) -> bool {
    forall|i: int| 0 <= i < s.len() ==> (#[trigger] s[i] as u32) < 128
}

/// Accept exactly the ASCII usernames.
pub fn gpu72_username_validator(s: String) -> (r: Result<(), String>)
    ensures
        r is Ok <==> all_ascii_chars(s@),
        !all_ascii_chars(s@) ==> (r matches Err(m) && m@ == "Username '"@ + s@
            + "' is not ASCII."@),
{
    let chars = str_to_chars(s.as_str());
    let n: usize = chars.len();
    let mut i: usize = 0;
    while i < n
        invariant
            chars@ == s@,
            n == s@.len(),
            i <= n,
            forall|k: int| 0 <= k < i ==> (#[trigger] s@[k] as u32) < 128,
        decreases n - i,
    {
        if (chars[i] as u32) >= 128 {
            let mut msg = String::from_str("Username '");
            msg.append(s.as_str());
            msg.append("' is not ASCII.");
            proof {
                assert(msg@ =~= "Username '"@ + s@ + "' is not ASCII."@);
            }
            return Err(msg);
        }
        i = i + 1;
    }
    Ok(())
}

/// Case-insensitive match of one letter.
pub open spec fn eq_ci(c: char, lo: char, up: char) -> bool {
    c == lo || c == up
}

/// The keyword `inf`, any case.
pub open spec fn is_inf_kw(t: Seq<char>) -> bool {
    t.len() == 3 && eq_ci(t[0], 'i', 'I') && eq_ci(t[1], 'n', 'N') && eq_ci(t[2], 'f', 'F')
}

/// The keyword `infinity`, any case.
pub open spec fn is_infinity_kw(t: Seq<char>) -> bool {
    t.len() == 8 && eq_ci(t[0], 'i', 'I') && eq_ci(t[1], 'n', 'N') && eq_ci(t[2], 'f', 'F')
        && eq_ci(t[3], 'i', 'I') && eq_ci(t[4], 'n', 'N') && eq_ci(t[5], 'i', 'I') && eq_ci(
        t[6],
        't',
        'T',
    ) && eq_ci(t[7], 'y', 'Y')
}

/// The keyword `nan`, any case.
pub open spec fn is_nan_kw(t: Seq<char>) -> bool {
    t.len() == 3 && eq_ci(t[0], 'n', 'N') && eq_ci(t[1], 'a', 'A') && eq_ci(t[2], 'n', 'N')
}

/// An exponent part fills `[i, len)`: `e` or `E`, an optional sign, and at
/// least one digit reaching the end.
pub open spec fn is_exp_at(t: Seq<char>, i: int) -> bool {
    &&& i < t.len()
    &&& (t[i] == 'e' || t[i] == 'E')
    &&& {
        let j = if i + 1 < t.len() && (t[i + 1] == '+' || t[i + 1] == '-') {
            i + 2
        } else {
            i + 1
        };
        let k = digit_run_end(t, j, t.len() as int);
        k == t.len() && k > j
    }
}

/// An unsigned numeric float body: digits, or digits around a point with
/// at least one digit somewhere, followed by an optional exponent part.
pub open spec fn is_number_body(t: Seq<char>) -> bool {
    t.len() > 0 && {
        let a = digit_run_end(t, 0, t.len() as int);
        if a == t.len() {
            a > 0
        } else if t[a] == '.' {
            let b = digit_run_end(t, a + 1, t.len() as int);
            &&& (a > 0 || b > a + 1)
            &&& (b == t.len() || is_exp_at(t, b))
        } else {
            a > 0 && is_exp_at(t, a)
        }
    }
}

/// The grammar of a floating-point literal: an optional sign, then one of
/// the keywords `inf`, `infinity` or `nan` in any case, or a numeric body.
pub open spec fn is_float_literal(s: Seq<char>) -> bool {
    let b = if s.len() > 0 && (s[0] == '+' || s[0] == '-') {
        s.skip(1)
    } else {
        s
    };
    is_inf_kw(b) || is_infinity_kw(b) || is_nan_kw(b) || is_number_body(b)
}

fn exp_at_exec(body: &Vec<char>, i: usize) -> (b: bool)
    requires
        i <= body@.len(),
    ensures
        b == is_exp_at(body@, i as int),
{
    let n: usize = body.len();
    if !(i < n && (body[i] == 'e' || body[i] == 'E')) {
        return false;
    }
    let j: usize = if i + 1 < n && (body[i + 1] == '+' || body[i + 1] == '-') {
        i + 2
    } else {
        i + 1
    };
    let k = digit_run_exec(body, j, n);
    k == n && k > j
}

fn number_body_exec(body: &Vec<char>) -> (b: bool)
    ensures
        b == is_number_body(body@),
{
    let n: usize = body.len();
    if n == 0 {
        return false;
    }
    let a = digit_run_exec(body, 0, n);
    if a == n {
        a > 0
    } else if body[a] == '.' {
        let b2 = digit_run_exec(body, a + 1, n);
        (a > 0 || b2 > a + 1) && (b2 == n || exp_at_exec(body, b2))
    } else {
        a > 0 && exp_at_exec(body, a)
    }
}

/// Accept exactly the strings matching the floating-point literal
/// grammar: an optional sign, then `inf`, `infinity` or `nan` in any
/// case, or digits with an optional point and exponent.
pub fn f32_validator(s: String) -> (r: Result<(), String>)
    ensures
        r is Ok <==> is_float_literal(s@),
        !is_float_literal(s@) ==> (r matches Err(m) && m@ == "Invalid f32: '"@ + s@
            + "'. Details: invalid float literal"@),
{
    let chars = str_to_chars(s.as_str());
    let n: usize = chars.len();
    let st: usize = if n > 0 && (chars[0] == '+' || chars[0] == '-') {
        1
    } else {
        0
    };
    let mut body: Vec<char> = Vec::new();
    let mut k: usize = st;
    while k < n
        invariant
            chars@ == s@,
            n == s@.len(),
            st <= k <= n,
            body@ =~= s@.subrange(st as int, k as int),
        decreases n - k,
    {
        body.push(chars[k]);
        k = k + 1;
        assert(body@ =~= s@.subrange(st as int, k as int));
    }
    proof {
        assert(body@ =~= (if s@.len() > 0 && (s@[0] == '+' || s@[0] == '-') {
            s@.skip(1)
        } else {
            s@
        }));
    }
    let m: usize = body.len();
    let kw = (m == 3 && (body[0] == 'i' || body[0] == 'I') && (body[1] == 'n' || body[1] == 'N')
        && (body[2] == 'f' || body[2] == 'F')) || (m == 8 && (body[0] == 'i' || body[0] == 'I') && (
    body[1] == 'n' || body[1] == 'N') && (body[2] == 'f' || body[2] == 'F') && (body[3] == 'i'
        || body[3] == 'I') && (body[4] == 'n' || body[4] == 'N') && (body[5] == 'i' || body[5]
        == 'I') && (body[6] == 't' || body[6] == 'T') && (body[7] == 'y' || body[7] == 'Y')) || (m
        == 3 && (body[0] == 'n' || body[0] == 'N') && (body[1] == 'a' || body[1] == 'A') && (body[2]
        == 'n' || body[2] == 'N'));
    if kw || number_body_exec(&body) {
        Ok(())
    } else {
        let mut msg = String::from_str("Invalid f32: '");
        msg.append(s.as_str());
        msg.append("'. Details: invalid float literal");
        proof {
            assert(msg@ =~= "Invalid f32: '"@ + s@ + "'. Details: invalid float literal"@);
        }
        Err(msg)
    }
}

} // verus!
