//! Verified generation of JSON text: string quoting with escapes, the JSON
//! number grammar, and serialization of objects and string arrays whose
//! member values are already JSON text.

use vstd::prelude::*;

use crate::text::chars_of;

verus! {

/// The lower-case hexadecimal digit for `n` (0 to 15).
pub open spec fn hex_digit(n: int) -> char {
    if 0 <= n < 10 {
        ((48 + n) as u8) as char
    } else if 10 <= n < 16 {
        ((87 + n) as u8) as char
    } else {
        '0'
    }
}

/// How one character appears inside a JSON string literal.
pub open spec fn esc_char(c: char) -> Seq<char> {
    if c == '"' {
        seq!['\\', '"']
    } else if c == '\\' {
        seq!['\\', '\\']
    } else if c == '\u{8}' {
        seq!['\\', 'b']
    } else if c == '\u{c}' {
        seq!['\\', 'f']
    } else if c == '\n' {
        seq!['\\', 'n']
    } else if c == '\r' {
        seq!['\\', 'r']
    } else if c == '\t' {
        seq!['\\', 't']
    } else if (c as u32) < 32 {
        seq!['\\', 'u', '0', '0', hex_digit((c as u32) as int / 16), hex_digit(
            (c as u32) as int % 16,
        )]
    } else {
        seq![c]
    }
}

/// The body of a JSON string literal for the characters `s`.
pub open spec fn esc_seq(s: Seq<char>) -> Seq<char>
    decreases s.len(),
{
    if s.len() == 0 {
        Seq::empty()
    } else {
        esc_char(s[0]) + esc_seq(s.skip(1))
    }
}

/// The JSON string literal for the characters `s`, quotes included.
pub open spec fn quote_spec(s: Seq<char>) -> Seq<char> {
    seq!['"'] + esc_seq(s) + seq!['"']
}

proof fn lemma_esc_seq_push(s: Seq<char>, c: char)
    ensures
        esc_seq(s.push(c)) == esc_seq(s) + esc_char(c),
    decreases s.len(),
{
    if s.len() == 0 {
        assert(s.push(c)[0] == c);
        assert(s.push(c).skip(1) =~= Seq::<char>::empty());
        assert(esc_seq(Seq::<char>::empty()) =~= Seq::<char>::empty());
        assert(esc_seq(s.push(c)) == esc_char(c) + esc_seq(s.push(c).skip(1)));
        assert(esc_seq(s.push(c)) =~= esc_char(c));
        assert(esc_seq(s) + esc_char(c) =~= esc_char(c));
    } else {
        assert(s.push(c)[0] == s[0]);
        assert(s.push(c).skip(1) =~= s.skip(1).push(c));
        lemma_esc_seq_push(s.skip(1), c);
        assert(esc_char(s[0]) + (esc_seq(s.skip(1)) + esc_char(c)) =~= (esc_char(s[0]) + esc_seq(
            s.skip(1),
        )) + esc_char(c));
    }
}

fn hex_digit_exec(n: u32) -> (r: char)
    requires
        n < 16,
    ensures
        r == hex_digit(n as int),
{
    if n < 10 {
        ((48 + n) as u8) as char
    } else {
        ((87 + n) as u8) as char
    }
}

fn push_esc_char(out: &mut Vec<char>, c: char)
    ensures
        final(out)@ == old(out)@ + esc_char(c),
{
    let u = c as u32;
    if c == '"' {
        out.push('\\');
        out.push('"');
    } else if c == '\\' {
        out.push('\\');
        out.push('\\');
    } else if c == '\u{8}' {
        out.push('\\');
        out.push('b');
    } else if c == '\u{c}' {
        out.push('\\');
        out.push('f');
    } else if c == '\n' {
        out.push('\\');
        out.push('n');
    } else if c == '\r' {
        out.push('\\');
        out.push('r');
    } else if c == '\t' {
        out.push('\\');
        out.push('t');
    } else if u < 32 {
        out.push('\\');
        out.push('u');
        out.push('0');
        out.push('0');
        out.push(hex_digit_exec(u / 16));
        out.push(hex_digit_exec(u % 16));
    } else {
        out.push(c);
    }
    assert(out@ =~= old(out)@ + esc_char(c));
}

/// Appends the JSON string literal for `s` to `out`.
pub fn push_quoted(out: &mut Vec<char>, s: &Vec<char>)
    ensures
        final(out)@ == old(out)@ + quote_spec(s@),
{
    out.push('"');
    let mut i: usize = 0;
    while i < s.len()
        invariant
            0 <= i <= s@.len(),
            out@ == old(out)@ + seq!['"'] + esc_seq(s@.take(i as int)),
        decreases s@.len() - i,
    {
        push_esc_char(out, s[i]);
        proof {
            lemma_esc_seq_push(s@.take(i as int), s@[i as int]);
            assert(s@.take(i as int).push(s@[i as int]) =~= s@.take(i + 1));
            assert((old(out)@ + seq!['"'] + esc_seq(s@.take(i as int))) + esc_char(s@[i as int])
                =~= old(out)@ + seq!['"'] + esc_seq(s@.take(i + 1)));
        }
        i += 1;
    }
    out.push('"');
    proof {
        assert(s@.take(i as int) =~= s@);
        assert((old(out)@ + seq!['"'] + esc_seq(s@)).push('"') =~= old(out)@ + quote_spec(s@));
    }
}

/// The JSON string literal for `s`, as a fresh character vector.
pub fn quote_chars(s: &Vec<char>) -> (r: Vec<char>)
    ensures
        r@ == quote_spec(s@),
{
    let mut out: Vec<char> = Vec::new();
    push_quoted(&mut out, s);
    proof {
        assert(Seq::<char>::empty() + quote_spec(s@) =~= quote_spec(s@));
    }
    out
}

/// The JSON string literal for `s`, as a `String`.
pub fn quoted(s: &str) -> (r: String)
    ensures
        r@ == quote_spec(s@),
{
    let c = chars_of(s);
    let q = quote_chars(&c);
    crate::text::string_of(&q)
}

/// A decimal digit.
pub open spec fn is_digit(c: char) -> bool {
    48 <= c as u32 <= 57
}

/// The first position at or after `i` that does not hold a digit.
pub open spec fn digits_end(s: Seq<char>, i: int) -> int
    decreases s.len() - i,
{
    if 0 <= i < s.len() && is_digit(s[i]) {
        digits_end(s, i + 1)
    } else {
        i
    }
}

proof fn lemma_digits_end_bounds(s: Seq<char>, i: int)
    requires
        0 <= i <= s.len(),
    ensures
        i <= digits_end(s, i) <= s.len(),
    decreases s.len() - i,
{
    if i < s.len() && is_digit(s[i]) {
        lemma_digits_end_bounds(s, i + 1);
    }
}

/// Where the integer part of a JSON number ends, if `s` starts with a valid
/// one at `i` (a single `0`, or a nonzero digit followed by digits).
pub open spec fn int_part_end(s: Seq<char>, i: int) -> Option<int> {
    if i < s.len() && is_digit(s[i]) {
        if s[i] == '0' {
            Some(i + 1)
        } else {
            Some(digits_end(s, i))
        }
    } else {
        None
    }
}

/// Where the optional fraction part ending position lies, starting at `i`.
pub open spec fn frac_part_end(s: Seq<char>, i: int) -> Option<int> {
    if i < s.len() && s[i] == '.' {
        if i + 1 < s.len() && is_digit(s[i + 1]) {
            Some(digits_end(s, i + 1))
        } else {
            None
        }
    } else {
        Some(i)
    }
}

/// Where the optional exponent part ending position lies, starting at `i`.
pub open spec fn exp_part_end(s: Seq<char>, i: int) -> Option<int> {
    if i < s.len() && (s[i] == 'e' || s[i] == 'E') {
        let j = if i + 1 < s.len() && (s[i + 1] == '+' || s[i + 1] == '-') {
            i + 2
        } else {
            i + 1
        };
        if j < s.len() && is_digit(s[j]) {
            Some(digits_end(s, j))
        } else {
            None
        }
    } else {
        Some(i)
    }
}

/// `s` is a complete JSON number literal.
pub open spec fn is_number_text(s: Seq<char>) -> bool {
    let i0: int = if s.len() > 0 && s[0] == '-' {
        1
    } else {
        0
    };
    match int_part_end(s, i0) {
        None => false,
        Some(i1) => match frac_part_end(s, i1) {
            None => false,
            Some(i2) => match exp_part_end(s, i2) {
                None => false,
                Some(i3) => i3 == s.len(),
            },
        },
    }
}

fn is_digit_exec(c: char) -> (r: bool)
    ensures
        r == is_digit(c),
{
    let u = c as u32;
    48 <= u && u <= 57
}

fn digits_end_exec(s: &Vec<char>, i: usize) -> (r: usize)
    requires
        i <= s@.len(),
    ensures
        r as int == digits_end(s@, i as int),
        i <= r <= s@.len(),
{
    let n = s.len();
    let mut j: usize = i;
    while j < n && is_digit_exec(s[j])
        invariant
            i <= j <= n,
            n == s@.len(),
            digits_end(s@, i as int) == digits_end(s@, j as int),
        decreases n - j,
    {
        j += 1;
    }
    proof {
        assert(digits_end(s@, j as int) == j as int);
    }
    j
}

/// Checks the JSON number grammar.
pub fn is_number_text_exec(s: &Vec<char>) -> (r: bool)
    ensures
        r == is_number_text(s@),
{
    let n = s.len();
    let i0: usize = if n > 0 && s[0] == '-' {
        1
    } else {
        0
    };
    if i0 >= n || !is_digit_exec(s[i0]) {
        assert(int_part_end(s@, i0 as int) is None);
        return false;
    }
    let i1: usize = if s[i0] == '0' {
        i0 + 1
    } else {
        digits_end_exec(s, i0)
    };
    proof {
        lemma_digits_end_bounds(s@, i0 as int);
    }
    let i2: usize;
    if i1 < n && s[i1] == '.' {
        if i1 + 1 < n && is_digit_exec(s[i1 + 1]) {
            i2 = digits_end_exec(s, i1 + 1);
            proof {
                lemma_digits_end_bounds(s@, i1 + 1);
            }
        } else {
            assert(frac_part_end(s@, i1 as int) is None);
            return false;
        }
    } else {
        i2 = i1;
    }
    if i2 < n && (s[i2] == 'e' || s[i2] == 'E') {
        let j: usize = if i2 + 1 < n && (s[i2 + 1] == '+' || s[i2 + 1] == '-') {
            i2 + 2
        } else {
            i2 + 1
        };
        if j < n && is_digit_exec(s[j]) {
            let i3 = digits_end_exec(s, j);
            i3 == n
        } else {
            assert(exp_part_end(s@, i2 as int) is None);
            false
        }
    } else {
        i2 == n
    }
}

/// Checks the JSON number grammar on a string slice.
pub fn is_number_str(s: &str) -> (r: bool)
    ensures
        r == is_number_text(s@),
{
    let c = chars_of(s);
    is_number_text_exec(&c)
}

/// The text between the braces of a JSON object with the given entries:
/// each key quoted, each value spliced in as it stands, comma-separated.
pub open spec fn entries_text(es: Seq<(Seq<char>, Seq<char>)>) -> Seq<char>
    decreases es.len(),
{
    if es.len() == 0 {
        Seq::empty()
    } else {
        let head = quote_spec(es[0].0) + seq![':'] + es[0].1;
        if es.len() == 1 {
            head
        } else {
            head + seq![','] + entries_text(es.skip(1))
        }
    }
}

/// The JSON object text for the given entries.
pub open spec fn obj_text(es: Seq<(Seq<char>, Seq<char>)>) -> Seq<char> {
    seq!['{'] + entries_text(es) + seq!['}']
}

pub proof fn lemma_entries_text_push(es: Seq<(Seq<char>, Seq<char>)>, e: (Seq<char>, Seq<char>))
    ensures
        entries_text(es.push(e)) == if es.len() == 0 {
            quote_spec(e.0) + seq![':'] + e.1
        } else {
            entries_text(es) + seq![','] + (quote_spec(e.0) + seq![':'] + e.1)
        },
    decreases es.len(),
{
    let item = quote_spec(e.0) + seq![':'] + e.1;
    if es.len() == 0 {
        assert(es.push(e)[0] == e);
        assert(entries_text(es.push(e)) == item);
    } else {
        assert(es.push(e)[0] == es[0]);
        assert(es.push(e).skip(1) =~= es.skip(1).push(e));
        lemma_entries_text_push(es.skip(1), e);
        let head = quote_spec(es[0].0) + seq![':'] + es[0].1;
        if es.len() == 1 {
            assert(es.skip(1).len() == 0);
            assert(entries_text(es.push(e)) == head + seq![','] + item);
            assert(entries_text(es) == head);
        } else {
            assert(entries_text(es.push(e)) == head + seq![','] + (entries_text(es.skip(1))
                + seq![','] + item));
            assert(head + seq![','] + (entries_text(es.skip(1)) + seq![','] + item) =~= (head
                + seq![','] + entries_text(es.skip(1))) + seq![','] + item);
        }
    }
}

/// The text between the brackets of a JSON array of string literals.
pub open spec fn items_text(xs: Seq<Seq<char>>) -> Seq<char>
    decreases xs.len(),
{
    if xs.len() == 0 {
        Seq::empty()
    } else {
        let head = quote_spec(xs[0]);
        if xs.len() == 1 {
            head
        } else {
            head + seq![','] + items_text(xs.skip(1))
        }
    }
}

/// The JSON array text for the given strings.
pub open spec fn str_array_text(xs: Seq<Seq<char>>) -> Seq<char> {
    seq!['['] + items_text(xs) + seq![']']
}

pub proof fn lemma_items_text_push(xs: Seq<Seq<char>>, x: Seq<char>)
    ensures
        items_text(xs.push(x)) == if xs.len() == 0 {
            quote_spec(x)
        } else {
            items_text(xs) + seq![','] + quote_spec(x)
        },
    decreases xs.len(),
{
    if xs.len() == 0 {
        assert(xs.push(x)[0] == x);
    } else {
        assert(xs.push(x)[0] == xs[0]);
        assert(xs.push(x).skip(1) =~= xs.skip(1).push(x));
        lemma_items_text_push(xs.skip(1), x);
        let head = quote_spec(xs[0]);
        if xs.len() == 1 {
            assert(items_text(xs) == head);
        } else {
            assert(head + seq![','] + (items_text(xs.skip(1)) + seq![','] + quote_spec(x)) =~= (
            head + seq![','] + items_text(xs.skip(1))) + seq![','] + quote_spec(x));
        }
    }
}

/// The views of a vector of string pairs.
pub open spec fn pairs_view(v: Seq<(String, String)>) -> Seq<(Seq<char>, Seq<char>)> {
    v.map(|i: int, p: (String, String)| (p.0@, p.1@))
}

/// Appends every character of `s` to `out`.
pub fn push_all(out: &mut Vec<char>, s: &Vec<char>)
    ensures
        final(out)@ == old(out)@ + s@,
{
    let mut j: usize = 0;
    proof {
        assert(out@ =~= old(out)@ + s@.take(0));
    }
    while j < s.len()
        invariant
            0 <= j <= s@.len(),
            out@ == old(out)@ + s@.take(j as int),
        decreases s@.len() - j,
    {
        out.push(s[j]);
        j += 1;
        assert(out@ =~= old(out)@ + s@.take(j as int));
    }
    assert(s@.take(j as int) =~= s@);
}

/// Serializes `entries` as a JSON object; keys are quoted, values must
/// already be JSON text and are spliced in unchanged.
pub fn obj_text_exec(entries: &Vec<(String, String)>) -> (r: Vec<char>)
    ensures
        r@ == obj_text(pairs_view(entries@)),
{
    let ghost es = pairs_view(entries@);
    let mut out: Vec<char> = Vec::new();
    out.push('{');
    proof {
        assert(out@ =~= seq!['{'] + entries_text(es.take(0)));
    }
    let mut i: usize = 0;
    while i < entries.len()
        invariant
            0 <= i <= entries@.len(),
            es == pairs_view(entries@),
            es.len() == entries@.len(),
            out@ == seq!['{'] + entries_text(es.take(i as int)),
        decreases entries@.len() - i,
    {
        proof {
            assert(es[i as int] == (entries@[i as int].0@, entries@[i as int].1@));
        }
        if i > 0 {
            out.push(',');
        }
        let kc = chars_of(entries[i].0.as_str());
        push_quoted(&mut out, &kc);
        out.push(':');
        let vc = chars_of(entries[i].1.as_str());
        push_all(&mut out, &vc);
        proof {
            lemma_entries_text_push(es.take(i as int), es[i as int]);
            assert(es.take(i as int).push(es[i as int]) =~= es.take(i + 1));
            assert(out@ =~= seq!['{'] + entries_text(es.take(i + 1)));
        }
        i += 1;
    }
    out.push('}');
    proof {
        assert(es.take(i as int) =~= es);
        assert(out@ =~= obj_text(es));
    }
    out
}

/// Serializes `items` as a JSON array of string literals.
pub fn str_array_text_exec(items: &Vec<String>) -> (r: Vec<char>)
    ensures
        r@ == str_array_text(items@.map(|i: int, s: String| s@)),
{
    let ghost xs = items@.map(|i: int, s: String| s@);
    let mut out: Vec<char> = Vec::new();
    out.push('[');
    proof {
        assert(out@ =~= seq!['['] + items_text(xs.take(0)));
    }
    let mut i: usize = 0;
    while i < items.len()
        invariant
            0 <= i <= items@.len(),
            xs == items@.map(|k: int, s: String| s@),
            xs.len() == items@.len(),
            out@ == seq!['['] + items_text(xs.take(i as int)),
        decreases items@.len() - i,
    {
        proof {
            assert(xs[i as int] == items@[i as int]@);
        }
        if i > 0 {
            out.push(',');
        }
        let xc = chars_of(items[i].as_str());
        push_quoted(&mut out, &xc);
        proof {
            lemma_items_text_push(xs.take(i as int), xs[i as int]);
            assert(xs.take(i as int).push(xs[i as int]) =~= xs.take(i + 1));
            assert(out@ =~= seq!['['] + items_text(xs.take(i + 1)));
        }
        i += 1;
    }
    out.push(']');
    proof {
        assert(xs.take(i as int) =~= xs);
        assert(out@ =~= str_array_text(xs));
    }
    out
}

} // verus!
