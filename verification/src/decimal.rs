//! Unsigned integers written in decimal, and read back.

use vstd::prelude::*;
use crate::text::chars_of;

verus! {

/// The character that stands for a value below ten.
pub open spec fn digit_char(value: nat) -> char
    recommends
        value < 10,
{
    seq!['0', '1', '2', '3', '4', '5', '6', '7', '8', '9'][value as int]
}

/// The decimal notation of `n`: no sign, no leading zero but for zero itself.
pub open spec fn decimal(n: nat) -> Seq<char>
    decreases n,
{
    if n < 10 {
        seq![digit_char(n)]
    } else {
        decimal(n / 10).push(digit_char(n % 10))
    }
}

pub open spec fn is_digit(c: char) -> bool {
    '0' <= c <= '9'
}

/// The value that a decimal digit stands for.
pub open spec fn digit_value(c: char) -> nat
    recommends
        is_digit(c),
{
    (c as nat - '0' as nat) as nat
}

pub open spec fn all_digits(text: Seq<char>) -> bool {
    forall|i: int| 0 <= i < text.len() ==> is_digit(#[trigger] text[i])
}

/// The number that a run of decimal digits denotes; leading zeros count
/// for nothing.
pub open spec fn digits_value(digits: Seq<char>) -> nat
    decreases digits.len(),
{
    if digits.len() == 0 {
        0
    } else {
        digits_value(digits.drop_last()) * 10 + digit_value(digits.last())
    }
}

/// `text` without one leading plus sign.
pub open spec fn unsigned_part(text: Seq<char>) -> Seq<char> {
    if text.len() > 0 && text[0] == '+' {
        text.skip(1)
    } else {
        text
    }
}

/// What `text` denotes as a 64-bit unsigned integer: an optional plus sign,
/// then at least one decimal digit and nothing else, the whole within range.
pub open spec fn parsed_u64(text: Seq<char>) -> Option<u64> {
    let digits = unsigned_part(text);
    if digits.len() > 0 && all_digits(digits) && digits_value(digits) <= u64::MAX {
        Some(digits_value(digits) as u64)
    } else {
        None
    }
}

/// A longer run of digits denotes no less than any of its prefixes.
proof fn lemma_prefix_value_is_no_larger(digits: Seq<char>, k: int)
    requires
        0 <= k <= digits.len(),
    ensures
        digits_value(digits.subrange(0, k)) <= digits_value(digits),
    decreases digits.len(),
{
    if k == digits.len() {
        assert(digits.subrange(0, k) =~= digits);
    } else {
        assert(digits.drop_last().subrange(0, k) =~= digits.subrange(0, k));
        lemma_prefix_value_is_no_larger(digits.drop_last(), k);
    }
}

fn digit_of(value: u8) -> (c: char)
    requires
        value < 10,
    ensures
        c == digit_char(value as nat),
{
    match value {
        0 => '0',
        1 => '1',
        2 => '2',
        3 => '3',
        4 => '4',
        5 => '5',
        6 => '6',
        7 => '7',
        8 => '8',
        _ => '9',
    }
}

/// Appends the decimal notation of `n` to `out`.
pub fn push_decimal(out: &mut String, n: u64)
    ensures
        final(out)@ == old(out)@ + decimal(n as nat),
    decreases n,
{
    if n >= 10 {
        push_decimal(out, n / 10);
    }
    out.push(digit_of((n % 10) as u8));
    assert(out@ =~= old(out)@ + decimal(n as nat));
}

/// The decimal notation of `n`.
pub fn decimal_string(n: u64) -> (text: String)
    ensures
        text@ == decimal(n as nat),
{
    let mut text = String::new();
    push_decimal(&mut text, n);
    assert(Seq::<char>::empty() + decimal(n as nat) =~= decimal(n as nat));
    text
}

fn value_of_digit(c: char) -> (value: Option<u64>)
    ensures
        value is Some <==> is_digit(c),
        value matches Some(v) ==> v == digit_value(c),
{
    match c {
        '0' => Some(0),
        '1' => Some(1),
        '2' => Some(2),
        '3' => Some(3),
        '4' => Some(4),
        '5' => Some(5),
        '6' => Some(6),
        '7' => Some(7),
        '8' => Some(8),
        '9' => Some(9),
        _ => None,
    }
}

/// Reads `text` as a 64-bit unsigned integer.
pub fn parse_u64(text: &str) -> (number: Option<u64>)
    ensures
        number == parsed_u64(text@),
{
    let chars = chars_of(text);
    let start: usize = if chars.len() > 0 && chars[0] == '+' {
        1
    } else {
        0
    };
    let ghost digits = unsigned_part(text@);
    assert(digits =~= chars@.skip(start as int));
    if start == chars.len() {
        return None;
    }
    let mut value: u64 = 0;
    let mut at: usize = start;
    while at < chars.len()
        invariant
            start <= at <= chars.len(),
            digits == unsigned_part(text@),
            digits == chars@.skip(start as int),
            all_digits(digits.subrange(0, at - start)),
            value == digits_value(digits.subrange(0, at - start)),
        decreases chars.len() - at,
    {
        let ghost seen = digits.subrange(0, at - start);
        let ghost next = digits.subrange(0, at - start + 1);
        proof {
            assert(next.drop_last() =~= seen);
            assert(next.last() == chars@[at as int]);
        }
        let digit = match value_of_digit(chars[at]) {
            Some(digit) => digit,
            None => {
                assert(!is_digit(digits[at - start]));
                return None;
            },
        };
        let grown = match value.checked_mul(10) {
            Some(tenfold) => tenfold.checked_add(digit),
            None => None,
        };
        match grown {
            Some(grown) => {
                value = grown;
            },
            None => {
                proof {
                    assert(digits_value(next) > u64::MAX);
                    lemma_prefix_value_is_no_larger(digits, at - start + 1);
                }
                return None;
            },
        }
        proof {
            assert forall|i: int| 0 <= i < next.len() implies is_digit(#[trigger] next[i]) by {
                if i < seen.len() {
                    assert(seen[i] == next[i]);
                }
            }
        }
        at += 1;
    }
    assert(digits.subrange(0, at - start) =~= digits);
    Some(value)
}

} // verus!
