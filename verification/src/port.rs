//! The listening port: read from a setting as a decimal number of 16 bits,
//! with a default where the setting is missing or is no such number.

use crate::text::chars_of;
use vstd::prelude::*;

verus! {

/// The port that is used where the setting names none.
pub const DEFAULT_PORT: u16 = 6868;

/// Whether `c` is one of the ten ASCII digits.
pub open spec fn is_digit(c: char) -> bool {
    '0' <= c <= '9'
}

/// The number that the digits in `digits` write in base ten.
pub open spec fn decimal(digits: Seq<char>) -> nat
    decreases digits.len(),
{
    if digits.len() == 0 {
        0
    } else {
        (decimal(digits.drop_last()) * 10 + (digits.last() as u32 - '0' as u32)) as nat
    }
}

/// What is left of `text` without the `+` that may stand in front of it.
pub open spec fn unsigned(text: Seq<char>) -> Seq<char> {
    if text.len() > 0 && text[0] == '+' {
        text.drop_first()
    } else {
        text
    }
}

/// Whether `s` holds digits and nothing else.
pub open spec fn all_digits(s: Seq<char>) -> bool {
    forall|i: int| 0 <= i < s.len() ==> is_digit(#[trigger] s[i])
}

/// The port that `text` writes: an optional `+`, then one digit or more, no
/// other character, and a value of at most 65535. Leading zeros count for
/// nothing.
pub open spec fn written_port(text: Seq<char>) -> Option<u16> {
    let digits = unsigned(text);
    if digits.len() > 0 && all_digits(digits) && decimal(digits) <= u16::MAX {
        Some(decimal(digits) as u16)
    } else {
        None
    }
}

/// The port to listen on under `setting`.
pub open spec fn listening_port(setting: Option<Seq<char>>) -> u16 {
    match setting {
        Some(text) => match written_port(text) {
            Some(port) => port,
            None => DEFAULT_PORT,
        },
        None => DEFAULT_PORT,
    }
}

/// Digits written behind a number do not make it smaller.
proof fn lemma_decimal_grows(digits: Seq<char>, k: int)
    requires
        0 <= k <= digits.len(),
        all_digits(digits),
    ensures
        decimal(digits.take(k)) <= decimal(digits),
    decreases digits.len() - k,
{
    if k < digits.len() {
        assert(digits.take(k + 1).drop_last() =~= digits.take(k));
        lemma_decimal_grows(digits, k + 1);
    } else {
        assert(digits.take(k) =~= digits);
    }
}

/// Reads a port as [`written_port`] describes it.
pub fn parse_port(text: &str) -> (port: Option<u16>)
    ensures
        port == written_port(text@),
{
    let cs = chars_of(text);
    let n = cs.len();
    let start: usize = if n > 0 && cs[0] == '+' {
        1
    } else {
        0
    };
    let ghost digits = unsigned(text@);
    if start == n {
        return None;
    }
    let mut value: u32 = 0;
    let mut at: usize = start;
    while at < n
        invariant
            start <= at <= n,
            n == cs.len(),
            cs@ == text@,
            digits == unsigned(text@),
            digits == cs@.skip(start as int),
            forall|i: int| 0 <= i < at - start ==> is_digit(#[trigger] digits[i]),
            value == decimal(digits.take(at - start)),
            value <= u16::MAX,
        decreases n - at,
    {
        let c: char = cs[at];
        proof {
            assert(digits[at - start] == c);
        }
        if c < '0' || c > '9' {
            return None;
        }
        proof {
            assert(digits.take(at - start + 1).drop_last() =~= digits.take(at - start));
        }
        value = value * 10 + (c as u32 - '0' as u32);
        if value > 65535 {
            proof {
                if all_digits(digits) {
                    lemma_decimal_grows(digits, at - start + 1);
                }
            }
            return None;
        }
        at += 1;
    }
    proof {
        assert(digits.take(n - start) =~= digits);
    }
    Some(value as u16)
}

/// The port to listen on: the one that `setting` writes, or the default
/// where there is no setting or it writes none.
pub fn port_from(setting: Option<&str>) -> (port: u16)
    ensures
        port == listening_port(
            match setting {
                Some(text) => Some(text@),
                None => None,
            },
        ),
{
    match setting {
        Some(text) => match parse_port(text) {
            Some(port) => port,
            None => DEFAULT_PORT,
        },
        None => DEFAULT_PORT,
    }
}

} // verus!
