//! Text: numbers in decimal, UTF-8, and how the standard library spells things.

use std::num::ParseIntError;
use vstd::arithmetic::power::pow;
use vstd::prelude::*;
use vstd::string::*;
use vstd::utf8::{decode_utf8, is_ascii_chars, valid_utf8};

verus! {

/// The character of the decimal digit `d`.
pub open spec fn digit_char(d: int) -> char {
    ('0' as int + d) as char
}

/// `n` in decimal, without leading zeros.
pub open spec fn decimal(n: nat) -> Seq<char>
    decreases n,
{
    if n < 10 {
        seq![digit_char(n as int)]
    } else {
        decimal(n / 10).push(digit_char((n % 10) as int))
    }
}

/// `c` is one of `0` to `9`.
pub open spec fn is_digit(c: char) -> bool {
    '0' as int <= c as int <= '9' as int
}

/// `s` is one decimal digit or more, and nothing else.
pub open spec fn is_digits(s: Seq<char>) -> bool {
    &&& s.len() > 0
    &&& forall|i: int| 0 <= i < s.len() ==> is_digit(#[trigger] s[i])
}

/// The number that a run of decimal digits stands for.
pub open spec fn digits_value(s: Seq<char>) -> int
    decreases s.len(),
{
    if s.len() == 0 {
        0
    } else {
        digits_value(s.drop_last()) * 10 + (s.last() as int - '0' as int)
    }
}

/// The number that `s` writes: an optional `+`, then decimal digits only, with a
/// value that 32 bits hold.
pub open spec fn decimal_u32(s: Seq<char>) -> Option<u32> {
    let digits = if s.len() > 0 && s[0] == '+' {
        s.skip(1)
    } else {
        s
    };
    if is_digits(digits) && digits_value(digits) <= u32::MAX {
        Some(digits_value(digits) as u32)
    } else {
        None
    }
}

proof fn lemma_decimal(n: nat, digits: nat)
    requires
        1 <= digits,
        n < pow(10, digits),
    ensures
        is_digits(decimal(n)),
        digits_value(decimal(n)) == n,
        decimal(n).len() <= digits,
    decreases n,
{
    reveal(pow);
    reveal_with_fuel(digits_value, 2);
    if n < 10 {
        assert(decimal(n).drop_last() =~= seq![]);
    } else {
        if digits == 1 {
            assert(pow(10, 0) == 1);
        }
        lemma_decimal(n / 10, (digits - 1) as nat);
        assert(decimal(n).drop_last() =~= decimal(n / 10));
    }
}

/// Every 32-bit number is read back from its decimal digits, which are ASCII and
/// ten at most.
pub proof fn law_decimal_read_back(n: u32)
    ensures
        decimal_u32(decimal(n as nat)) == Some(n),
        is_ascii_chars(decimal(n as nat)),
        decimal(n as nat).len() <= 10,
{
    assert(pow(10, 10) == 10_000_000_000) by {
        reveal_with_fuel(pow, 11);
    }
    lemma_decimal(n as nat, 10);
    assert(is_digit(decimal(n as nat)[0]));
}

/// Every number, of whatever size, is written in digits that stand for it, and
/// without leading zeros.
pub proof fn law_decimal_is_canonical(n: nat)
    ensures
        is_digits(decimal(n)),
        digits_value(decimal(n)) == n,
        n > 0 ==> decimal(n)[0] != '0',
        n == 0 ==> decimal(n) == seq!['0'],
    decreases n,
{
    reveal_with_fuel(digits_value, 2);
    if n < 10 {
        assert(decimal(n).drop_last() =~= seq![]);
    } else {
        law_decimal_is_canonical(n / 10);
        assert(decimal(n).drop_last() =~= decimal(n / 10));
        assert(decimal(n)[0] == decimal(n / 10)[0]);
    }
}

/// The text of one decimal digit.
fn digit_text(d: u64) -> (s: &'static str)
    requires
        d < 10,
    ensures
        s@ == seq![digit_char(d as int)],
{
    proof {
        reveal_strlit("0");
        reveal_strlit("1");
        reveal_strlit("2");
        reveal_strlit("3");
        reveal_strlit("4");
        reveal_strlit("5");
        reveal_strlit("6");
        reveal_strlit("7");
        reveal_strlit("8");
        reveal_strlit("9");
    }
    match d {
        0 => "0",
        1 => "1",
        2 => "2",
        3 => "3",
        4 => "4",
        5 => "5",
        6 => "6",
        7 => "7",
        8 => "8",
        _ => "9",
    }
}

/// Writes a number in decimal.
pub(crate) fn decimal_text(n: u64) -> (s: String)
    ensures
        s@ == decimal(n as nat),
    decreases n,
{
    if n < 10 {
        digit_text(n).to_owned()
    } else {
        decimal_text(n / 10).concat(digit_text(n % 10))
    }
}

/// Puts `tail` behind `head`.
pub(crate) fn join2(head: &str, tail: &str) -> (s: String)
    ensures
        s@ == head@ + tail@,
{
    head.to_owned().concat(tail)
}

/// Puts three texts one behind the other.
pub(crate) fn join3(head: &str, middle: &str, tail: &str) -> (s: String)
    ensures
        s@ == head@ + middle@ + tail@,
{
    head.to_owned().concat(middle).concat(tail)
}

/// The text that `String::from_utf8_lossy` makes of bytes that are not UTF-8.
pub uninterp spec fn utf8_replaced(bytes: Seq<u8>) -> Seq<char>;

/// The text that `bytes` hold: what they encode where they are UTF-8, else what
/// is left of it with replacement characters in the place of the rest.
pub open spec fn lossy_text(bytes: Seq<u8>) -> Seq<char> {
    if valid_utf8(bytes) {
        decode_utf8(bytes)
    } else {
        utf8_replaced(bytes)
    }
}

/// Calls `String::from_utf8_lossy`. Claimed of it: it decodes what is valid
/// UTF-8, and what it makes of other bytes depends on those bytes alone.
/// Where it puts replacement characters is not stated.
#[verifier::external_body]
pub(crate) fn from_utf8_lossy(bytes: &[u8]) -> (text: String)
    ensures
        valid_utf8(bytes@) ==> text@ == decode_utf8(bytes@),
        !valid_utf8(bytes@) ==> text@ == utf8_replaced(bytes@),
{
    String::from_utf8_lossy(bytes).into_owned()
}

/// Calls `std::str::from_utf8`. Claimed of it: it succeeds on valid UTF-8 and on
/// nothing else, and then gives the text that the bytes encode.
#[verifier::external_body]
pub(crate) fn from_utf8(bytes: &[u8]) -> (text: Option<&str>)
    ensures
        text is Some <==> valid_utf8(bytes@),
        text matches Some(s) ==> s@ == decode_utf8(bytes@),
{
    std::str::from_utf8(bytes).ok()
}

/// The error of a text that is no number, carried as it is.
#[verifier::external_type_specification]
#[verifier::external_body]
pub struct ExParseIntError(ParseIntError);

/// What the error of `str::parse::<u32>` says about a text that it refuses.
pub uninterp spec fn parse_u32_complaint(s: Seq<char>) -> Seq<char>;

/// Calls `str::parse::<u32>`. Claimed of it: it takes an optional `+` and then
/// decimal digits only, whose value has to fit, and gives that value; what its
/// error displays as depends on the refused text alone.
#[verifier::external_body]
pub(crate) fn parse_u32(s: &str) -> (n: Result<u32, ParseIntError>)
    ensures
        match n {
            Ok(v) => decimal_u32(s@) == Some(v),
            Err(e) => decimal_u32(s@) is None && (forall|t: String| #[trigger]
                to_string_from_display_ensures::<ParseIntError>(&e, t) ==> t@
                    == parse_u32_complaint(s@)),
        },
{
    s.parse::<u32>()
}

} // verus!
