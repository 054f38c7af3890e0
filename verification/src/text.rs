//! Comparing and reading text.

use vstd::prelude::*;
use vstd::string::StringSliceAdditionalSpecFns;
use vstd::utf8::encode_utf8_decode_utf8;

verus! {

/// Whether two strings hold the same characters.
pub fn same_text(a: &str, b: &str) -> (same: bool)
    ensures
        same == (a@ == b@),
{
    let x = a.as_bytes();
    let y = b.as_bytes();
    proof {
        encode_utf8_decode_utf8(a@);
        encode_utf8_decode_utf8(b@);
    }
    if x.len() != y.len() {
        return false;
    }
    let mut i: usize = 0;
    while i < x.len()
        invariant
            i <= x.len(),
            x.len() == y.len(),
            x@ == a.spec_bytes(),
            y@ == b.spec_bytes(),
            forall|k: int| 0 <= k < i ==> x@[k] == y@[k],
        decreases x.len() - i,
    {
        if x[i] != y[i] {
            return false;
        }
        i += 1;
    }
    assert(x@ =~= y@);
    true
}


/// Whether `c` is one of the ten decimal digits.
pub open spec fn is_digit(c: char) -> bool {
    '0' <= c <= '9'
}

/// The number that a run of decimal digits writes.
pub open spec fn digits_value(s: Seq<char>) -> nat
    decreases s.len(),
{
    if s.len() == 0 {
        0
    } else {
        digits_value(s.drop_last()) * 10 + (s.last() as nat - '0' as nat) as nat
    }
}

/// The number that `s` writes in decimal digits; nothing where `s` is empty or
/// holds anything but digits.
pub open spec fn decimal(s: Seq<char>) -> Option<nat> {
    if s.len() > 0 && (forall|i: int| 0 <= i < s.len() ==> is_digit(#[trigger] s[i])) {
        Some(digits_value(s))
    } else {
        None
    }
}

/// A longer run of digits writes no smaller a number.
pub proof fn lemma_digits_value_grows(s: Seq<char>, k: int)
    requires
        0 <= k <= s.len(),
        forall|i: int| 0 <= i < s.len() ==> is_digit(#[trigger] s[i]),
    ensures
        digits_value(s.take(k)) <= digits_value(s),
    decreases s.len() - k,
{
    if k < s.len() {
        lemma_digits_value_grows(s, k + 1);
        assert(s.take(k + 1).drop_last() =~= s.take(k));
        assert(s.take(k + 1).last() == s[k]);
    } else {
        assert(s.take(k) =~= s);
    }
}

/// Reads `chars` as a number written in decimal digits, no greater than `max`.
pub fn parse_digits(chars: &Vec<char>, max: u64) -> (number: Option<u64>)
    ensures
        number == (match decimal(chars@) {
            Some(n) => if n <= max {
                Some(n as u64)
            } else {
                None
            },
            None => None,
        }),
{
    if chars.len() == 0 {
        return None;
    }
    let mut value: u64 = 0;
    let mut i: usize = 0;
    while i < chars.len()
        invariant
            i <= chars.len(),
            forall|k: int| 0 <= k < i ==> is_digit(#[trigger] chars@[k]),
            value == digits_value(chars@.take(i as int)),
            value <= max,
        decreases chars.len() - i,
    {
        let c = chars[i];
        if c < '0' || c > '9' {
            assert(!is_digit(chars@[i as int]));
            return None;
        }
        let d: u64 = (c as u32 - '0' as u32) as u64;
        proof {
            assert(chars@.take(i + 1).drop_last() =~= chars@.take(i as int));
            assert(chars@.take(i + 1).last() == c);
            assert(digits_value(chars@.take(i + 1)) == value * 10 + d);
        }
        if d > max || value > (max - d) / 10 {
            proof {
                assert(value * 10 + d > max);
                if decimal(chars@) is Some {
                    lemma_digits_value_grows(chars@, i + 1);
                }
            }
            return None;
        }
        value = value * 10 + d;
        i += 1;
    }
    assert(chars@.take(i as int) =~= chars@);
    Some(value)
}

/// Reads `text` as a number written in decimal digits, no greater than `max`.
pub fn parse_decimal(text: &str, max: u64) -> (number: Option<u64>)
    ensures
        number == (match decimal(text@) {
            Some(n) => if n <= max {
                Some(n as u64)
            } else {
                None
            },
            None => None,
        }),
{
    let chars = chars_of(text);
    parse_digits(&chars, max)
}


/// The characters of a string, in order.
pub fn chars_of(text: &str) -> (chars: Vec<char>)
    ensures
        chars@ == text@,
{
    let mut chars: Vec<char> = Vec::new();
    for c in it: text.chars()
        invariant
            it.seq() == text@,
            chars@ == it.seq().take(it.index() as int),
    {
        chars.push(c);
        assert(it.seq().take(it.index() + 1) =~= it.seq().take(it.index() as int).push(c));
    }
    assert(text@.take(text@.len() as int) =~= text@);
    chars
}

} // verus!
