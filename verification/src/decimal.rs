//! Decimal rendering and parsing of integers, stated over `Seq<char>`.
//!
//! `int_digits` is the usual base-ten form: an optional leading `-`, then
//! the digits without leading zeros. `parse_int` reads the same form back
//! and also accepts a leading `+` and leading zeros.

use vstd::prelude::*;
use crate::text::{chars_of, push_char};

verus! {

/// The character for the digit `d`, `0 <= d <= 9`.
pub open spec fn digit_char(d: int) -> char {
    if d == 0 {
        '0'
    } else if d == 1 {
        '1'
    } else if d == 2 {
        '2'
    } else if d == 3 {
        '3'
    } else if d == 4 {
        '4'
    } else if d == 5 {
        '5'
    } else if d == 6 {
        '6'
    } else if d == 7 {
        '7'
    } else if d == 8 {
        '8'
    } else {
        '9'
    }
}

/// Whether `c` is one of `0` to `9`.
pub open spec fn is_digit(c: char) -> bool {
    c == '0' || c == '1' || c == '2' || c == '3' || c == '4' || c == '5' || c == '6' || c == '7'
        || c == '8' || c == '9'
}

/// The value of the digit character `c`; 0 for any other character.
pub open spec fn digit_value(c: char) -> int {
    if c == '1' {
        1
    } else if c == '2' {
        2
    } else if c == '3' {
        3
    } else if c == '4' {
        4
    } else if c == '5' {
        5
    } else if c == '6' {
        6
    } else if c == '7' {
        7
    } else if c == '8' {
        8
    } else if c == '9' {
        9
    } else {
        0
    }
}

/// Base-ten digits of `n`, most significant first, no leading zeros.
pub open spec fn nat_digits(n: nat) -> Seq<char>
    decreases n,
{
    if n < 10 {
        seq![digit_char(n as int)]
    } else {
        nat_digits(n / 10).push(digit_char((n % 10) as int))
    }
}

/// Base-ten form of `i`: `-` and the digits of `-i` when negative, else
/// the digits of `i`.
pub open spec fn int_digits(i: int) -> Seq<char> {
    if i < 0 {
        seq!['-'] + nat_digits((-i) as nat)
    } else {
        nat_digits(i as nat)
    }
}

/// Whether every character of `s` is a digit.
pub open spec fn all_digits(s: Seq<char>) -> bool {
    forall|i: int| 0 <= i < s.len() ==> is_digit(#[trigger] s[i])
}

/// The number that the digit string `s` denotes (0 for the empty string).
pub open spec fn digits_value(s: Seq<char>) -> nat
    decreases s.len(),
{
    if s.len() == 0 {
        0
    } else {
        (digits_value(s.drop_last()) * 10 + digit_value(s.last())) as nat
    }
}

/// What a signed decimal literal denotes: an optional `+` or `-`, then one
/// or more digits. `None` for any other string.
pub open spec fn parse_int(s: Seq<char>) -> Option<int> {
    if s.len() > 0 && (s[0] == '-' || s[0] == '+') {
        let body = s.subrange(1, s.len() as int);
        if body.len() > 0 && all_digits(body) {
            if s[0] == '-' {
                Some(-(digits_value(body) as int))
            } else {
                Some(digits_value(body) as int)
            }
        } else {
            None
        }
    } else if s.len() > 0 && all_digits(s) {
        Some(digits_value(s) as int)
    } else {
        None
    }
}

/// What an unsigned decimal literal denotes: an optional `+`, then one or
/// more digits. `None` for any other string.
pub open spec fn parse_nat(s: Seq<char>) -> Option<nat> {
    if s.len() > 0 && s[0] == '+' {
        let body = s.subrange(1, s.len() as int);
        if body.len() > 0 && all_digits(body) {
            Some(digits_value(body))
        } else {
            None
        }
    } else if s.len() > 0 && all_digits(s) {
        Some(digits_value(s))
    } else {
        None
    }
}

/// The digits of a number are digits, at least one of them.
pub proof fn lemma_nat_digits_shape(n: nat)
    ensures
        nat_digits(n).len() >= 1,
        all_digits(nat_digits(n)),
    decreases n,
{
    if n >= 10 {
        lemma_nat_digits_shape(n / 10);
    }
}

/// Reading the digits of `n` gives `n` back.
pub proof fn lemma_digits_value_of_nat_digits(n: nat)
    ensures
        digits_value(nat_digits(n)) == n,
    decreases n,
{
    if n < 10 {
        let s = nat_digits(n);
        assert(s.drop_last().len() == 0);
        assert(digits_value(s.drop_last()) == 0);
        assert(s.last() == digit_char(n as int));
    } else {
        lemma_digits_value_of_nat_digits(n / 10);
        let s = nat_digits(n);
        assert(s.drop_last() == nat_digits(n / 10));
        assert(s.last() == digit_char((n % 10) as int));
    }
}

/// Parsing the decimal form of `i` gives `i` back.
pub proof fn lemma_parse_int_of_int_digits(i: int)
    ensures
        parse_int(int_digits(i)) == Some(i),
{
    if i < 0 {
        let m = (-i) as nat;
        let s = int_digits(i);
        lemma_nat_digits_shape(m);
        lemma_digits_value_of_nat_digits(m);
        assert(s.subrange(1, s.len() as int) == nat_digits(m));
    } else {
        lemma_nat_digits_shape(i as nat);
        lemma_digits_value_of_nat_digits(i as nat);
        let s = int_digits(i);
        assert(is_digit(s[0]));
    }
}

/// Parsing the digits of `n` as an unsigned literal gives `n` back.
pub proof fn lemma_parse_nat_of_nat_digits(n: nat)
    ensures
        parse_nat(nat_digits(n)) == Some(n),
{
    lemma_nat_digits_shape(n);
    lemma_digits_value_of_nat_digits(n);
    assert(is_digit(nat_digits(n)[0]));
}

/// Two integers with the same decimal form are equal.
pub proof fn lemma_int_digits_injective(a: int, b: int)
    requires
        int_digits(a) == int_digits(b),
    ensures
        a == b,
{
    lemma_parse_int_of_int_digits(a);
    lemma_parse_int_of_int_digits(b);
}

/// The decimal form of an integer holds only digits and `-`.
pub proof fn lemma_int_digits_chars(i: int)
    ensures
        int_digits(i).len() >= 1,
        forall|k: int|
            0 <= k < int_digits(i).len() ==> is_digit(#[trigger] int_digits(i)[k]) || int_digits(
                i,
            )[k] == '-',
{
    if i < 0 {
        lemma_nat_digits_shape((-i) as nat);
    } else {
        lemma_nat_digits_shape(i as nat);
    }
}


/// Prefixes of a digit string denote no more than the whole string.
pub proof fn lemma_digits_value_prefix(s: Seq<char>, j: int)
    requires
        0 <= j <= s.len(),
    ensures
        digits_value(s.take(j)) <= digits_value(s),
    decreases s.len() - j,
{
    if j == s.len() {
        assert(s.take(j) == s);
    } else {
        lemma_digits_value_prefix(s.drop_last(), j);
        assert(s.drop_last().take(j) == s.take(j));
    }
}

/// The digit character for `d`.
fn digit_of(d: u64) -> (c: char)
    requires
        d < 10,
    ensures
        c == digit_char(d as int),
{
    if d == 0 {
        '0'
    } else if d == 1 {
        '1'
    } else if d == 2 {
        '2'
    } else if d == 3 {
        '3'
    } else if d == 4 {
        '4'
    } else if d == 5 {
        '5'
    } else if d == 6 {
        '6'
    } else if d == 7 {
        '7'
    } else if d == 8 {
        '8'
    } else {
        '9'
    }
}

/// The value of `c` when it is a digit.
fn value_of(c: char) -> (v: Option<u64>)
    ensures
        v is Some <==> is_digit(c),
        v matches Some(d) ==> d == digit_value(c) && d < 10,
{
    if c == '0' {
        Some(0)
    } else if c == '1' {
        Some(1)
    } else if c == '2' {
        Some(2)
    } else if c == '3' {
        Some(3)
    } else if c == '4' {
        Some(4)
    } else if c == '5' {
        Some(5)
    } else if c == '6' {
        Some(6)
    } else if c == '7' {
        Some(7)
    } else if c == '8' {
        Some(8)
    } else if c == '9' {
        Some(9)
    } else {
        None
    }
}

/// Appends the digits of `n` to `out`.
pub fn push_nat(out: &mut String, n: u64)
    ensures
        final(out)@ == old(out)@ + nat_digits(n as nat),
    decreases n,
{
    if n >= 10 {
        push_nat(out, n / 10);
    }
    push_char(out, digit_of(n % 10));
}

/// Appends the decimal form of `i` to `out`.
pub fn push_int(out: &mut String, i: i64)
    ensures
        final(out)@ == old(out)@ + int_digits(i as int),
{
    if i < 0 {
        push_char(out, '-');
        let magnitude: u64 = if i == i64::MIN {
            9223372036854775808u64
        } else {
            (-i) as u64
        };
        push_nat(out, magnitude);
    } else {
        push_nat(out, i as u64);
    }
}

/// The decimal form of `i`.
pub fn i64_to_string(i: i64) -> (s: String)
    ensures
        s@ == int_digits(i as int),
{
    let mut s = String::new();
    push_int(&mut s, i);
    s
}

/// The decimal form of `n`.
pub fn u64_to_string(n: u64) -> (s: String)
    ensures
        s@ == nat_digits(n as nat),
{
    let mut s = String::new();
    push_nat(&mut s, n);
    s
}

/// Reads the digits of `chars` from `start` to the end. `None` when there
/// are none, when one of them is no digit, or when the number does not
/// fit in 64 bits.
fn parse_digits(chars: &Vec<char>, start: usize) -> (r: Option<u64>)
    requires
        start <= chars.len(),
    ensures
        ({
            let body = chars@.subrange(start as int, chars.len() as int);
            r == if body.len() > 0 && all_digits(body) && digits_value(body) <= u64::MAX {
                Some(digits_value(body) as u64)
            } else {
                None
            }
        }),
{
    let ghost body = chars@.subrange(start as int, chars.len() as int);
    if start == chars.len() {
        return None;
    }
    let mut acc: u64 = 0;
    let mut i: usize = start;
    while i < chars.len()
        invariant
            start <= i <= chars.len(),
            body == chars@.subrange(start as int, chars.len() as int),
            all_digits(body.take(i - start)),
            acc == digits_value(body.take(i - start)),
        decreases chars.len() - i,
    {
        let ghost k = i - start;
        let c = chars[i];
        assert(body[k] == c);
        assert(body.take(k + 1).drop_last() == body.take(k));
        assert(body.take(k + 1).last() == c);
        match value_of(c) {
            None => {
                return None;
            },
            Some(d) => {
                proof {
                    lemma_digits_value_prefix(body, k + 1);
                }
                let shifted = match acc.checked_mul(10) {
                    Some(v) => v,
                    None => {
                        return None;
                    },
                };
                acc = match shifted.checked_add(d) {
                    Some(v) => v,
                    None => {
                        return None;
                    },
                };
                assert forall|j: int| 0 <= j < k + 1 implies is_digit(
                    #[trigger] body.take(k + 1)[j],
                ) by {
                    if j < k {
                        assert(body.take(k)[j] == body.take(k + 1)[j]);
                    }
                }
            },
        }
        i = i + 1;
    }
    assert(body.take(body.len() as int) == body);
    Some(acc)
}

/// Parses a signed decimal literal given by its characters: an optional
/// `+` or `-`, then digits. `None` for anything else and for a number
/// outside `i64`.
pub fn parse_i64_chars(chars: &Vec<char>) -> (r: Option<i64>)
    ensures
        r == match parse_int(chars@) {
            Some(v) => if i64::MIN <= v <= i64::MAX {
                Some(v as i64)
            } else {
                None
            },
            None => None,
        },
{
    if chars.len() == 0 {
        return None;
    }
    let first = chars[0];
    if first == '-' {
        match parse_digits(chars, 1) {
            None => None,
            Some(m) => {
                if m > 9223372036854775808u64 {
                    None
                } else if m == 9223372036854775808u64 {
                    Some(i64::MIN)
                } else {
                    Some(-(m as i64))
                }
            },
        }
    } else if first == '+' {
        match parse_digits(chars, 1) {
            None => None,
            Some(m) => {
                if m > 9223372036854775807u64 {
                    None
                } else {
                    Some(m as i64)
                }
            },
        }
    } else {
        assert(chars@.subrange(0, chars.len() as int) == chars@);
        match parse_digits(chars, 0) {
            None => None,
            Some(m) => {
                if m > 9223372036854775807u64 {
                    None
                } else {
                    Some(m as i64)
                }
            },
        }
    }
}

/// Parses an unsigned decimal literal given by its characters: an
/// optional `+`, then digits. `None` for anything else and for a number
/// above `u64::MAX`.
pub fn parse_u64_chars(chars: &Vec<char>) -> (r: Option<u64>)
    ensures
        r == match parse_nat(chars@) {
            Some(v) => if v <= u64::MAX {
                Some(v as u64)
            } else {
                None
            },
            None => None,
        },
{
    if chars.len() == 0 {
        return None;
    }
    let start: usize = if chars[0] == '+' {
        1
    } else {
        0
    };
    assert(chars@.subrange(0, chars.len() as int) == chars@);
    parse_digits(chars, start)
}

/// Parses an unsigned decimal literal given by its characters. `None`
/// for anything else and for a number above `usize::MAX`.
pub fn parse_usize_chars(chars: &Vec<char>) -> (r: Option<usize>)
    ensures
        r == match parse_nat(chars@) {
            Some(v) => if v <= usize::MAX {
                Some(v as usize)
            } else {
                None
            },
            None => None,
        },
{
    match parse_u64_chars(chars) {
        None => None,
        Some(m) => {
            if m > usize::MAX as u64 {
                None
            } else {
                Some(m as usize)
            }
        },
    }
}

/// Parses a signed decimal literal: an optional `+` or `-`, then digits.
/// `None` for any other string and for a number outside `i64`.
pub fn parse_i64(s: &str) -> (r: Option<i64>)
    ensures
        r == match parse_int(s@) {
            Some(v) => if i64::MIN <= v <= i64::MAX {
                Some(v as i64)
            } else {
                None
            },
            None => None,
        },
{
    let chars = chars_of(s);
    parse_i64_chars(&chars)
}

/// Parses an unsigned decimal literal: an optional `+`, then digits.
/// `None` for any other string and for a number above `u64::MAX`.
pub fn parse_u64(s: &str) -> (r: Option<u64>)
    ensures
        r == match parse_nat(s@) {
            Some(v) => if v <= u64::MAX {
                Some(v as u64)
            } else {
                None
            },
            None => None,
        },
{
    let chars = chars_of(s);
    parse_u64_chars(&chars)
}

/// Parses an unsigned decimal literal: an optional `+`, then digits.
/// `None` for any other string and for a number above `usize::MAX`.
pub fn parse_usize(s: &str) -> (r: Option<usize>)
    ensures
        r == match parse_nat(s@) {
            Some(v) => if v <= usize::MAX {
                Some(v as usize)
            } else {
                None
            },
            None => None,
        },
{
    let chars = chars_of(s);
    parse_usize_chars(&chars)
}

/// Parses an unsigned decimal literal: an optional `+`, then digits.
/// `None` for any other string and for a number above 65535.
pub fn parse_u16(s: &str) -> (r: Option<u16>)
    ensures
        r == match parse_nat(s@) {
            Some(v) => if v <= u16::MAX {
                Some(v as u16)
            } else {
                None
            },
            None => None,
        },
{
    match parse_u64(s) {
        None => None,
        Some(m) => {
            if m > 65535u64 {
                None
            } else {
                Some(m as u16)
            }
        },
    }
}

} // verus!
