//! Character-level text operations: substitution, decimal numerals and joining.
//!
//! Every text is modelled by its sequence of characters. The functions here
//! build `String`s whose views are given by the spec functions beside them.

use vstd::prelude::*;
use vstd::string::StringExecFns;

verus! {

/// `s` with every non-overlapping occurrence of `from`, found left to right,
/// replaced by `to`. An empty `from` matches before every character and at
/// the end.
pub open spec fn replace_all(s: Seq<char>, from: Seq<char>, to: Seq<char>) -> Seq<char>
    decreases s.len(),
{
    if s.len() == 0 {
        if from.len() == 0 {
            to
        } else {
            s
        }
    } else if from.len() == 0 {
        to + seq![s[0]] + replace_all(s.skip(1), from, to)
    } else if from.is_prefix_of(s) {
        to + replace_all(s.skip(from.len() as int), from, to)
    } else {
        seq![s[0]] + replace_all(s.skip(1), from, to)
    }
}

/// The decimal digit for `d`, for `d` below ten.
pub open spec fn digit(d: nat) -> char {
    if d == 0 {
        '0'
    } else if d == 1 {
        '1'
    } else if d == 2 {
        '2'
    } else if d == 3 {
        '3'
    } else if d == 4 {
        '4'
    } else if d == 5 {
        '5'
    } else if d == 6 {
        '6'
    } else if d == 7 {
        '7'
    } else if d == 8 {
        '8'
    } else {
        '9'
    }
}

/// The decimal numeral of `n`, without leading zeros.
pub open spec fn decimal(n: nat) -> Seq<char>
    decreases n,
{
    if n < 10 {
        seq![digit(n)]
    } else {
        decimal(n / 10).push(digit(n % 10))
    }
}

/// The decimal numeral of `i`, with a leading minus sign when `i` is negative.
pub open spec fn signed_decimal(i: int) -> Seq<char> {
    if i < 0 {
        seq!['-'] + decimal((-i) as nat)
    } else {
        decimal(i as nat)
    }
}

/// The texts of `parts` in order, with `sep` between neighbours.
pub open spec fn join(parts: Seq<Seq<char>>, sep: Seq<char>) -> Seq<char>
    decreases parts.len(),
{
    if parts.len() == 0 {
        Seq::empty()
    } else if parts.len() == 1 {
        parts[0]
    } else {
        join(parts.drop_last(), sep) + sep + parts.last()
    }
}

/// The views of the strings of `v`, in order.
pub open spec fn texts(v: Seq<String>) -> Seq<Seq<char>> {
    Seq::new(v.len(), |i: int| v[i]@)
}

/// Appends `c` to `s` by `String::push`, which adds the character at the end
/// and leaves what was there untouched.
#[verifier::external_body]
fn push_char(s: &mut String, c: char)
    ensures
        final(s)@ == old(s)@.push(c),
{
    s.push(c)
}

/// The characters of `s`, in order.
pub fn chars_of(s: &str) -> (v: Vec<char>)
    ensures
        v@ == s@,
{
    let mut v: Vec<char> = Vec::new();
    for c in it: s.chars()
        invariant
            v@ == it.seq().take(it.index() as int),
            it.seq() == s@,
    {
        v.push(c);
    }
    v
}

/// Whether `from` occurs in `s` starting at position `at`.
fn matches_at(s: &Vec<char>, at: usize, from: &Vec<char>) -> (m: bool)
    requires
        at <= s.len(),
    ensures
        m == from@.is_prefix_of(s@.skip(at as int)),
{
    if from.len() > s.len() - at {
        return false;
    }
    let mut j: usize = 0;
    while j < from.len()
        invariant
            at <= s.len(),
            from.len() <= s.len() - at,
            j <= from.len(),
            forall|k: int| 0 <= k < j ==> from@[k] == s@[at + k],
        decreases from.len() - j,
    {
        if from[j] != s[at + j] {
            return false;
        }
        j += 1;
    }
    true
}

/// Replaces every occurrence of `from` in `s` by `to`, left to right.
pub fn replace(s: &str, from: &str, to: &str) -> (out: String)
    ensures
        out@ == replace_all(s@, from@, to@),
{
    let sv = chars_of(s);
    let fv = chars_of(from);
    let mut out = String::new();
    let mut i: usize = 0;
    assert(s@.skip(0) =~= s@);
    while i < sv.len()
        invariant
            i <= sv.len(),
            sv@ == s@,
            fv@ == from@,
            out@ + replace_all(s@.skip(i as int), from@, to@) == replace_all(s@, from@, to@),
        decreases sv.len() - i,
    {
        let ghost rest = s@.skip(i as int);
        let ghost before = out@;
        if fv.len() == 0 {
            out.append(to);
            push_char(&mut out, sv[i]);
            assert(rest.skip(1) =~= s@.skip(i + 1));
            assert(out@ + replace_all(s@.skip(i + 1), from@, to@) =~= before + replace_all(
                rest,
                from@,
                to@,
            ));
            i += 1;
        } else if matches_at(&sv, i, &fv) {
            out.append(to);
            assert(rest.skip(fv@.len() as int) =~= s@.skip(i + fv@.len()));
            assert(out@ + replace_all(s@.skip(i + fv@.len()), from@, to@) =~= before
                + replace_all(rest, from@, to@));
            i += fv.len();
        } else {
            push_char(&mut out, sv[i]);
            assert(rest.skip(1) =~= s@.skip(i + 1));
            assert(out@ + replace_all(s@.skip(i + 1), from@, to@) =~= before + replace_all(
                rest,
                from@,
                to@,
            ));
            i += 1;
        }
    }
    if fv.len() == 0 {
        out.append(to);
    }
    out
}

/// The digit character for `d`.
fn digit_char(d: u64) -> (c: char)
    requires
        d < 10,
    ensures
        c == digit(d as nat),
{
    if d == 0 {
        '0'
    } else if d == 1 {
        '1'
    } else if d == 2 {
        '2'
    } else if d == 3 {
        '3'
    } else if d == 4 {
        '4'
    } else if d == 5 {
        '5'
    } else if d == 6 {
        '6'
    } else if d == 7 {
        '7'
    } else if d == 8 {
        '8'
    } else {
        '9'
    }
}

/// Writes `n` as a decimal numeral.
pub fn decimal_text(n: u64) -> (s: String)
    ensures
        s@ == decimal(n as nat),
    decreases n,
{
    if n < 10 {
        let mut s = String::new();
        push_char(&mut s, digit_char(n));
        s
    } else {
        let mut s = decimal_text(n / 10);
        push_char(&mut s, digit_char(n % 10));
        s
    }
}

/// Writes `i` as a decimal numeral, with a minus sign when it is negative.
pub fn signed_decimal_text(i: i64) -> (s: String)
    ensures
        s@ == signed_decimal(i as int),
{
    if i < 0 {
        let magnitude: u64 = (-(i + 1)) as u64 + 1;
        let mut s = String::new();
        push_char(&mut s, '-');
        let digits = decimal_text(magnitude);
        s.append(digits.as_str());
        s
    } else {
        decimal_text(i as u64)
    }
}

/// `text` with every repetition of `tail` at its end removed. An empty
/// `tail` removes nothing.
pub open spec fn trimmed_end(text: Seq<char>, tail: Seq<char>) -> Seq<char>
    decreases text.len(),
{
    if tail.len() > 0 && tail.is_suffix_of(text) {
        trimmed_end(text.take(text.len() - tail.len()), tail)
    } else {
        text
    }
}

/// The string that holds `chars`, in order.
pub fn text_of_chars(chars: &Vec<char>) -> (text: String)
    ensures
        text@ == chars@,
{
    let mut text = String::new();
    let mut i: usize = 0;
    while i < chars.len()
        invariant
            i <= chars.len(),
            text@ == chars@.take(i as int),
        decreases chars.len() - i,
    {
        push_char(&mut text, chars[i]);
        i += 1;
    }
    text
}

/// Whether `a` and `b` hold the same characters.
pub fn same_text(a: &str, b: &str) -> (same: bool)
    ensures
        same == (a@ == b@),
{
    let av = chars_of(a);
    let bv = chars_of(b);
    if av.len() != bv.len() {
        return false;
    }
    let mut i: usize = 0;
    while i < av.len()
        invariant
            i <= av.len(),
            av.len() == bv.len(),
            av@ == a@,
            bv@ == b@,
            forall|k: int| 0 <= k < i ==> av@[k] == bv@[k],
        decreases av.len() - i,
    {
        if av[i] != bv[i] {
            return false;
        }
        i += 1;
    }
    assert(av@ =~= bv@);
    true
}

/// Whether `tail` stands at the end of the first `len` characters of `text`.
fn ends_with(text: &Vec<char>, len: usize, tail: &Vec<char>) -> (m: bool)
    requires
        len <= text.len(),
    ensures
        m == tail@.is_suffix_of(text@.take(len as int)),
{
    if tail.len() > len {
        return false;
    }
    let start = len - tail.len();
    let ghost head = text@.take(len as int);
    let mut j: usize = 0;
    while j < tail.len()
        invariant
            len <= text.len(),
            tail.len() <= len,
            start == len - tail.len(),
            j <= tail.len(),
            head == text@.take(len as int),
            forall|k: int| 0 <= k < j ==> tail@[k] == text@[start + k],
        decreases tail.len() - j,
    {
        if tail[j] != text[start + j] {
            assert(tail@[j as int] != head.subrange(
                head.len() - tail@.len(),
                head.len() as int,
            )[j as int]);
            return false;
        }
        j += 1;
    }
    true
}

/// Removes every repetition of `tail` from the end of `text`.
pub fn trim_end(text: &str, tail: &str) -> (out: String)
    ensures
        out@ == trimmed_end(text@, tail@),
{
    let mut chars = chars_of(text);
    let pattern = chars_of(tail);
    if pattern.len() == 0 {
        return text_of_chars(&chars);
    }
    let mut len = chars.len();
    assert(text@.take(len as int) =~= text@);
    while ends_with(&chars, len, &pattern)
        invariant
            len <= chars.len(),
            chars@ == text@,
            pattern@ == tail@,
            pattern.len() > 0,
            trimmed_end(text@.take(len as int), tail@) == trimmed_end(text@, tail@),
        decreases len,
    {
        assert(text@.take(len as int).take(len - pattern.len()) =~= text@.take(
            len - pattern.len(),
        ));
        len = len - pattern.len();
    }
    chars.truncate(len);
    text_of_chars(&chars)
}

} // verus!
