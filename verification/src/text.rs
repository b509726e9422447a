//! Rendering of numbers and session identifiers as they travel in a URL.

use crate::types::SessionId;
use vstd::arithmetic::power::pow;
use vstd::prelude::*;

verus! {

/// The sixteen lower-case hexadecimal digits, in order.
pub open spec fn hex_digits() -> Seq<char> {
    seq!['0', '1', '2', '3', '4', '5', '6', '7', '8', '9', 'a', 'b', 'c', 'd', 'e', 'f']
}

/// The decimal numeral of `n`, without sign or leading zeros.
pub open spec fn decimal(n: nat) -> Seq<char>
    decreases n,
{
    if n < 10 {
        seq![hex_digits()[n as int]]
    } else {
        decimal(n / 10).push(hex_digits()[(n % 10) as int])
    }
}

/// The `k`-th of the 32 hexadecimal digits of `value`, counted from the most
/// significant one.
pub open spec fn nibble(value: u128, k: int) -> int {
    (value as int / pow(16, (31 - k) as nat)) % 16
}

/// How many hyphens stand before position `i` of a hyphenated identifier.
pub open spec fn hyphens_before(i: int) -> int {
    if i < 8 {
        0
    } else if i < 13 {
        1
    } else if i < 18 {
        2
    } else if i < 23 {
        3
    } else {
        4
    }
}

/// The hyphenated text of a 128-bit identifier: its 32 lower-case
/// hexadecimal digits, most significant first, in groups of 8, 4, 4, 4 and
/// 12 with a hyphen between groups.
pub open spec fn hyphenated(value: u128) -> Seq<char> {
    Seq::new(
        36,
        |i: int|
            if i == 8 || i == 13 || i == 18 || i == 23 {
                '-'
            } else {
                hex_digits()[nibble(value, i - hyphens_before(i))]
            },
    )
}

/// `String::push` of std appends the character to the end of the string.
pub assume_specification[ String::push ](text: &mut String, c: char)
    ensures
        final(text)@ == old(text)@.push(c),
;

/// The text of a session identifier. The body calls `Uuid::from_u128` and the
/// `Display` impl of `uuid::Uuid`; the contract claims that the result is the
/// lower-case hyphenated form of the 128 bits, 36 characters long.
#[verifier::external_body]
pub(crate) fn session_text(id: SessionId) -> (text: String)
    ensures
        text@ == hyphenated(id.0),
{
    uuid::Uuid::from_u128(id.0).to_string()
}

/// The character for a decimal digit.
fn digit_char(d: u32) -> (c: char)
    requires
        d < 10,
    ensures
        c == hex_digits()[d as int],
{
    if d == 0 {
        '0'
    } else if d == 1 {
        '1'
    } else if d == 2 {
        '2'
    } else if d == 3 {
        '3'
    } else if d == 4 {
        '4'
    } else if d == 5 {
        '5'
    } else if d == 6 {
        '6'
    } else if d == 7 {
        '7'
    } else if d == 8 {
        '8'
    } else {
        '9'
    }
}

/// Appends the decimal numeral of `n` to `text`.
pub fn push_decimal(text: &mut String, n: u32)
    ensures
        final(text)@ == old(text)@ + decimal(n as nat),
    decreases n,
{
    if n >= 10 {
        push_decimal(text, n / 10);
    }
    text.push(digit_char(n % 10));
}

/// Appends the hyphenated text of `id` to `text`.
pub fn push_session(text: &mut String, id: SessionId)
    ensures
        final(text)@ == old(text)@ + hyphenated(id.0),
{
    let rendered = session_text(id);
    text.append(rendered.as_str());
}

} // verus!
