//! Text primitives: comparison of string slices and decimal parsing.

use vstd::prelude::*;
use vstd::string::*;
use vstd::utf8::*;

verus! {

/// Whether `a` and `b` hold the same characters.
pub fn str_eq(a: &str, b: &str) -> (same: bool)
    ensures
        same == (a@ == b@),
{
    let x = a.as_bytes();
    let y = b.as_bytes();
    if x.len() != y.len() {
        return false;
    }
    let mut i: usize = 0;
    while i < x.len()
        invariant
            x@ == a.spec_bytes(),
            y@ == b.spec_bytes(),
            x.len() == y.len(),
            i <= x.len(),
            forall|j: int| 0 <= j < i ==> x@[j] == y@[j],
        decreases x.len() - i,
    {
        if x[i] != y[i] {
            return false;
        }
        i += 1;
    }
    proof {
        assert(x@ =~= y@);
        encode_utf8_decode_utf8(a@);
        encode_utf8_decode_utf8(b@);
    }
    true
}

/// Whether `c` is one of the ASCII digits `0` to `9`.
pub open spec fn is_digit(c: char) -> bool {
    '0' <= c && c <= '9'
}

/// The number that the digit `c` stands for.
pub open spec fn digit_value(c: char) -> nat {
    (c as u32 - '0' as u32) as nat
}

/// Whether every character of `s` is an ASCII digit.
pub open spec fn all_digits(s: Seq<char>) -> bool {
    forall|i: int| 0 <= i < s.len() ==> is_digit(#[trigger] s[i])
}

/// The number that the digit sequence `s` denotes in base ten.
pub open spec fn digits_value(s: Seq<char>) -> nat
    decreases s.len(),
{
    if s.len() == 0 {
        0
    } else {
        10 * digits_value(s.drop_last()) + digit_value(s.last())
    }
}

/// The digits of `s`: everything after one optional leading `+`.
pub open spec fn unsigned_digits(s: Seq<char>) -> Seq<char> {
    if s.len() > 0 && s[0] == '+' {
        s.drop_first()
    } else {
        s
    }
}

/// The unsigned decimal number written in `s`, if `s` is an optional `+`
/// followed by at least one digit and nothing else, and the number is at
/// most `max`.
pub open spec fn parse_unsigned(s: Seq<char>, max: nat) -> Option<nat> {
    let d = unsigned_digits(s);
    if d.len() > 0 && all_digits(d) && digits_value(d) <= max {
        Some(digits_value(d))
    } else {
        None
    }
}

/// A digit sequence denotes at least what any of its prefixes denotes.
pub proof fn lemma_digits_value_prefix(s: Seq<char>, n: int)
    requires
        0 <= n <= s.len(),
        all_digits(s),
    ensures
        digits_value(s.take(n)) <= digits_value(s),
    decreases s.len() - n,
{
    if n == s.len() {
        assert(s.take(n) =~= s);
    } else {
        lemma_digits_value_prefix(s, n + 1);
        assert(s.take(n + 1).drop_last() =~= s.take(n));
    }
}

/// Parses `s` as an unsigned decimal number no greater than `max`.
pub fn parse_decimal(s: &str, max: u64) -> (parsed: Option<u64>)
    ensures
        parsed matches Some(v) ==> parse_unsigned(s@, max as nat) == Some(v as nat),
        parsed is None ==> parse_unsigned(s@, max as nat) is None,
{
    let n: usize = s.unicode_len();
    if n == 0 {
        return None;
    }
    let start: usize = if s.get_char(0) == '+' { 1 } else { 0 };
    if start == n {
        return None;
    }
    let ghost d = unsigned_digits(s@);
    let mut value: u64 = 0;
    let mut i: usize = start;
    while i < n
        invariant
            start <= i <= n,
            n == s@.len(),
            d == s@.subrange(start as int, n as int),
            d == unsigned_digits(s@),
            all_digits(d.take(i - start)),
            value == digits_value(d.take(i - start)),
            value <= max,
        decreases n - i,
    {
        let c: char = s.get_char(i);
        assert(d[i - start] == c);
        if !('0' <= c && c <= '9') {
            return None;
        }
        let digit: u64 = (c as u32 - '0' as u32) as u64;
        proof {
            assert(d.take(i - start + 1).drop_last() =~= d.take(i - start));
            assert(d.take(i - start + 1).last() == c);
        }
        if digit > max || value > (max - digit) / 10 {
            proof {
                if all_digits(d) {
                    lemma_digits_value_prefix(d, i - start + 1);
                }
            }
            return None;
        }
        value = value * 10 + digit;
        i += 1;
    }
    proof {
        assert(d.take(n - start) =~= d);
    }
    Some(value)
}

} // verus!
