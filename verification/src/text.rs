//! Character-level text utilities: ASCII case folding, (case-insensitive)
//! substring matching and removal, and whitespace trimming.
//!
//! Node names and tags are handled as sequences of characters; every
//! executable routine here is proved against a direct specification.

use vstd::prelude::*;

verus! {

/// ASCII lower-casing of one character; all other characters are unchanged.
pub open spec fn lower_char(c: char) -> char {
    if 65 <= c as u32 && c as u32 <= 90 {
        (((c as u32) + 32) as u8) as char
    } else {
        c
    }
}

/// Character equality, case-insensitively when `ci` holds.
pub open spec fn eq_c(a: char, b: char, ci: bool) -> bool {
    if ci {
        lower_char(a) == lower_char(b)
    } else {
        a == b
    }
}

/// `pat` occurs in `s` at position `i`.
pub open spec fn match_at(s: Seq<char>, pat: Seq<char>, i: int, ci: bool) -> bool {
    &&& 0 <= i
    &&& i + pat.len() <= s.len()
    &&& forall|j: int| 0 <= j < pat.len() ==> eq_c(s[i + j], pat[j], ci)
}

/// `pat` occurs somewhere in `s`.
pub open spec fn contains_pat(s: Seq<char>, pat: Seq<char>, ci: bool) -> bool {
    exists|i: int| match_at(s, pat, i, ci)
}

/// `s` with every (leftmost-first, non-overlapping) occurrence of `pat`
/// removed. An empty `pat` removes nothing.
pub open spec fn remove_all(s: Seq<char>, pat: Seq<char>, ci: bool) -> Seq<char>
    decreases s.len(),
{
    if pat.len() == 0 || s.len() == 0 {
        s
    } else if match_at(s, pat, 0, ci) {
        remove_all(s.skip(pat.len() as int), pat, ci)
    } else {
        seq![s[0]] + remove_all(s.skip(1), pat, ci)
    }
}

/// The whitespace characters that trimming strips.
pub open spec fn is_space(c: char) -> bool {
    c == ' ' || c == '\t' || c == '\n' || c == '\r'
}

/// `s` without leading whitespace.
pub open spec fn trim_start(s: Seq<char>) -> Seq<char>
    decreases s.len(),
{
    if s.len() > 0 && is_space(s[0]) {
        trim_start(s.skip(1))
    } else {
        s
    }
}

/// `s` without trailing whitespace.
pub open spec fn trim_end(s: Seq<char>) -> Seq<char>
    decreases s.len(),
{
    if s.len() > 0 && is_space(s[s.len() - 1]) {
        trim_end(s.take(s.len() - 1))
    } else {
        s
    }
}

/// `s` without surrounding whitespace.
pub open spec fn trim(s: Seq<char>) -> Seq<char> {
    trim_end(trim_start(s))
}

pub fn lower_char_exec(c: char) -> (r: char)
    ensures
        r == lower_char(c),
{
    let u = c as u32;
    if 65 <= u && u <= 90 {
        ((u + 32) as u8) as char
    } else {
        c
    }
}

pub fn eq_c_exec(a: char, b: char, ci: bool) -> (r: bool)
    ensures
        r == eq_c(a, b, ci),
{
    if ci {
        lower_char_exec(a) == lower_char_exec(b)
    } else {
        a == b
    }
}

pub fn match_at_exec(s: &Vec<char>, pat: &Vec<char>, i: usize, ci: bool) -> (r: bool)
    requires
        i <= s@.len(),
    ensures
        r == match_at(s@, pat@, i as int, ci),
{
    if s.len() - i < pat.len() {
        return false;
    }
    let slen = s.len();
    let mut j: usize = 0;
    while j < pat.len()
        invariant
            0 <= j <= pat@.len(),
            i + pat@.len() <= slen,
            slen == s@.len(),
            forall|k: int| 0 <= k < j ==> eq_c(s@[i + k], pat@[k], ci),
        decreases pat@.len() - j,
    {
        if !eq_c_exec(s[i + j], pat[j], ci) {
            assert(!eq_c(s@[i + j], pat@[j as int], ci));
            return false;
        }
        j += 1;
    }
    true
}

pub fn contains_pat_exec(s: &Vec<char>, pat: &Vec<char>, ci: bool) -> (r: bool)
    ensures
        r == contains_pat(s@, pat@, ci),
{
    if pat.len() == 0 {
        assert(match_at(s@, pat@, 0, ci));
        return true;
    }
    if pat.len() > s.len() {
        assert(forall|k: int| !match_at(s@, pat@, k, ci));
        return false;
    }
    let n = s.len();
    let last = n - pat.len();
    let mut i: usize = 0;
    while i <= last
        invariant
            0 <= i <= last + 1,
            pat@.len() > 0,
            n == s@.len(),
            last == s@.len() - pat@.len(),
            last < n,
            forall|k: int| 0 <= k < i ==> !match_at(s@, pat@, k, ci),
        decreases last + 1 - i,
    {
        if match_at_exec(s, pat, i, ci) {
            return true;
        }
        i += 1;
    }
    assert(forall|k: int| #![trigger match_at(s@, pat@, k, ci)]
        k >= i ==> !match_at(s@, pat@, k, ci));
    false
}

/// Occurrences of `pat` line up between `s` and its suffix `s.skip(d)`.
proof fn lemma_match_at_skip(s: Seq<char>, pat: Seq<char>, d: int, k: int, ci: bool)
    requires
        0 <= d <= s.len(),
        0 <= k,
    ensures
        match_at(s, pat, d + k, ci) == match_at(s.skip(d), pat, k, ci),
{
    if match_at(s, pat, d + k, ci) {
        assert forall|j: int| 0 <= j < pat.len() implies eq_c(s.skip(d)[k + j], pat[j], ci) by {
            assert(s.skip(d)[k + j] == s[d + k + j]);
        }
    }
    if match_at(s.skip(d), pat, k, ci) {
        assert forall|j: int| 0 <= j < pat.len() implies eq_c(s[d + k + j], pat[j], ci) by {
            assert(s.skip(d)[k + j] == s[d + k + j]);
        }
    }
}

pub fn remove_all_exec(s: &Vec<char>, pat: &Vec<char>, ci: bool) -> (r: Vec<char>)
    ensures
        r@ == remove_all(s@, pat@, ci),
{
    let mut out: Vec<char> = Vec::new();
    if pat.len() == 0 {
        let mut i: usize = 0;
        while i < s.len()
            invariant
                0 <= i <= s@.len(),
                out@ == s@.take(i as int),
            decreases s@.len() - i,
        {
            out.push(s[i]);
            i += 1;
            assert(out@ =~= s@.take(i as int));
        }
        assert(out@ =~= s@);
        return out;
    }
    proof {
        assert(s@.skip(0) =~= s@);
        assert(out@ + remove_all(s@, pat@, ci) =~= remove_all(s@, pat@, ci));
    }
    let mut i: usize = 0;
    while i < s.len()
        invariant
            0 <= i <= s@.len(),
            pat@.len() > 0,
            remove_all(s@, pat@, ci) == out@ + remove_all(s@.skip(i as int), pat@, ci),
        decreases s@.len() - i,
    {
        let ghost pre = s@.skip(i as int);
        if match_at_exec(s, pat, i, ci) {
            proof {
                lemma_match_at_skip(s@, pat@, i as int, 0, ci);
                assert(match_at(pre, pat@, 0, ci));
                assert(pre.skip(pat@.len() as int) =~= s@.skip(i + pat@.len()));
                assert(remove_all(pre, pat@, ci)
                    == remove_all(s@.skip(i + pat@.len()), pat@, ci));
            }
            i += pat.len();
        } else {
            proof {
                lemma_match_at_skip(s@, pat@, i as int, 0, ci);
                assert(!match_at(pre, pat@, 0, ci));
                assert(pre.skip(1) =~= s@.skip(i + 1));
                assert(pre[0] == s@[i as int]);
                assert(remove_all(pre, pat@, ci)
                    == seq![s@[i as int]] + remove_all(s@.skip(i + 1), pat@, ci));
                assert(out@ + (seq![s@[i as int]] + remove_all(s@.skip(i + 1), pat@, ci))
                    =~= out@.push(s@[i as int]) + remove_all(s@.skip(i + 1), pat@, ci));
            }
            out.push(s[i]);
            i += 1;
        }
    }
    proof {
        assert(s@.skip(i as int) =~= Seq::<char>::empty());
        assert(remove_all(s@.skip(i as int), pat@, ci) =~= Seq::<char>::empty());
        assert(out@ + Seq::<char>::empty() =~= out@);
    }
    out
}

/// Dropping a leading space commutes with full trimming.
proof fn lemma_trim_start_step(s: Seq<char>)
    requires
        s.len() > 0,
        is_space(s[0]),
    ensures
        trim_start(s) == trim_start(s.skip(1)),
{
}

pub fn trim_exec(s: &Vec<char>) -> (r: Vec<char>)
    ensures
        r@ == trim(s@),
{
    proof {
        assert(s@.skip(0) =~= s@);
    }
    let mut a: usize = 0;
    while a < s.len() && is_space_exec(s[a])
        invariant
            0 <= a <= s@.len(),
            trim_start(s@) == trim_start(s@.skip(a as int)),
        decreases s@.len() - a,
    {
        proof {
            let pre = s@.skip(a as int);
            assert(pre[0] == s@[a as int]);
            lemma_trim_start_step(pre);
            assert(pre.skip(1) =~= s@.skip(a + 1));
        }
        a += 1;
    }
    proof {
        let pre = s@.skip(a as int);
        if pre.len() > 0 {
            assert(pre[0] == s@[a as int]);
        }
        assert(trim_start(s@) == pre);
    }
    // `s@.skip(a)` is exactly `trim_start(s@)`; now trim its tail.
    let mut b: usize = s.len();
    while b > a && is_space_exec(s[b - 1])
        invariant
            a <= b <= s@.len(),
            trim_start(s@) == s@.skip(a as int),
            trim_end(s@.skip(a as int)) == trim_end(s@.subrange(a as int, b as int)),
        decreases b,
    {
        proof {
            let cur = s@.subrange(a as int, b as int);
            assert(cur[cur.len() - 1] == s@[b - 1]);
            assert(cur.take(cur.len() - 1) =~= s@.subrange(a as int, b - 1));
        }
        b -= 1;
    }
    let mut out: Vec<char> = Vec::new();
    let mut i: usize = a;
    while i < b
        invariant
            a <= i <= b <= s@.len(),
            out@ == s@.subrange(a as int, i as int),
        decreases b - i,
    {
        out.push(s[i]);
        i += 1;
        assert(out@ =~= s@.subrange(a as int, i as int));
    }
    proof {
        let cur = s@.subrange(a as int, b as int);
        if b > a {
            assert(cur[cur.len() - 1] == s@[b - 1]);
            assert(!is_space(cur[cur.len() - 1]));
        }
        assert(trim_end(cur) == cur);
        assert(out@ =~= cur);
    }
    out
}

pub fn is_space_exec(c: char) -> (r: bool)
    ensures
        r == is_space(c),
{
    c == ' ' || c == '\t' || c == '\n' || c == '\r'
}

/// The characters of a string slice, in order.
pub fn chars_of(s: &str) -> (r: Vec<char>)
    ensures
        r@ == s@,
{
    let n = s.unicode_len();
    let mut out: Vec<char> = Vec::new();
    let mut i: usize = 0;
    while i < n
        invariant
            0 <= i <= n,
            n == s@.len(),
            out@ == s@.take(i as int),
        decreases n - i,
    {
        out.push(s.get_char(i));
        i += 1;
        assert(out@ =~= s@.take(i as int));
    }
    assert(out@ =~= s@);
    out
}

/// Relies on `core::iter::Iterator::collect`: a `String` holds exactly the
/// characters it was collected from, in order.
#[verifier::external_body]
pub fn string_of(v: &Vec<char>) -> (r: String)
    ensures
        r@ == v@,
{
    v.iter().collect()
}

/// The two string slices hold the same characters.
pub fn str_eq(a: &str, b: &str) -> (r: bool)
    ensures
        r == (a@ == b@),
{
    let sa = String::from_str(a);
    let sb = String::from_str(b);
    sa == sb
}

} // verus!
