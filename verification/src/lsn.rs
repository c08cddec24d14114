//! Positions in the write-ahead log.

use crate::error::{ErrorView, PgWireError};
use crate::text::join2;
use vstd::arithmetic::power::pow;
use vstd::prelude::*;
use vstd::slice::slice_subrange;
use vstd::string::*;
use vstd::utf8::is_ascii_chars;

verus! {

/// A log sequence number: a byte position in the write-ahead log.
///
/// PostgreSQL writes it as two hexadecimal numbers of up to 8 digits each, the
/// high and the low 32 bits, with a slash between them, as in `0/16B3748`.
#[derive(Debug, Clone, Copy, PartialEq, Eq, Structural)]
pub struct Lsn(pub u64);

/// The value of a hexadecimal digit of either case.
pub open spec fn hex_digit(c: char) -> Option<int> {
    let n = c as int;
    if '0' as int <= n <= '9' as int {
        Some(n - '0' as int)
    } else if 'A' as int <= n <= 'F' as int {
        Some(n - 'A' as int + 10)
    } else if 'a' as int <= n <= 'f' as int {
        Some(n - 'a' as int + 10)
    } else {
        None
    }
}

/// The number that a run of hexadecimal digits stands for.
pub open spec fn hex_value(s: Seq<char>) -> int
    decreases s.len(),
{
    if s.len() == 0 {
        0
    } else {
        hex_value(s.drop_last()) * 16 + hex_digit(s.last())->0
    }
}

/// `s` is half of an LSN: 1 to 8 hexadecimal digits.
pub open spec fn is_lsn_half(s: Seq<char>) -> bool {
    &&& 1 <= s.len() <= 8
    &&& forall|i: int| 0 <= i < s.len() ==> hex_digit(#[trigger] s[i]) is Some
}

/// The place of the first slash of `s`, or its length where it has none.
pub open spec fn slash_place(s: Seq<char>) -> int
    decreases s.len(),
{
    if s.len() == 0 || s[0] == '/' {
        0
    } else {
        1 + slash_place(s.skip(1))
    }
}

/// The position that `s` writes, or `None` where it writes none.
pub open spec fn lsn_value(s: Seq<char>) -> Option<int> {
    let slash = slash_place(s);
    let high = s.take(slash);
    let low = s.skip(slash + 1);
    if slash < s.len() && is_lsn_half(high) && is_lsn_half(low) {
        Some(hex_value(high) * 0x1_0000_0000 + hex_value(low))
    } else {
        None
    }
}

/// The character of the hexadecimal digit `d`, in upper case.
pub open spec fn hex_char(d: int) -> char {
    if d < 10 {
        ('0' as int + d) as char
    } else {
        ('A' as int + d - 10) as char
    }
}

/// `n` in hexadecimal, in upper case and without leading zeros.
pub open spec fn hex(n: nat) -> Seq<char>
    decreases n,
{
    if n < 16 {
        seq![hex_char(n as int)]
    } else {
        hex(n / 16).push(hex_char((n % 16) as int))
    }
}

/// The text that PostgreSQL writes for the position `v`.
pub open spec fn lsn_text(v: nat) -> Seq<char> {
    hex(v / 0x1_0000_0000) + seq!['/'] + hex(v % 0x1_0000_0000)
}

/// What is said of a text that is no LSN.
pub open spec fn no_lsn(s: Seq<char>) -> Seq<char> {
    "invalid LSN: "@ + s
}

/// ASCII bytes as characters.
spec fn ascii_chars(b: Seq<u8>) -> Seq<char> {
    b.map_values(|byte: u8| byte as char)
}

proof fn lemma_slash_place(s: Seq<char>)
    ensures
        0 <= slash_place(s) <= s.len(),
        forall|i: int| 0 <= i < slash_place(s) ==> s[i] != '/',
        slash_place(s) < s.len() ==> s[slash_place(s)] == '/',
    decreases s.len(),
{
    if s.len() > 0 && s[0] != '/' {
        let rest = s.skip(1);
        lemma_slash_place(rest);
        assert forall|i: int| 0 <= i < slash_place(s) implies s[i] != '/' by {
            if i > 0 {
                assert(s[i] == rest[i - 1]);
            }
        }
        assert(slash_place(rest) < rest.len() ==> s[slash_place(s)] == rest[slash_place(rest)]);
    }
}

proof fn lemma_lsn_is_ascii(s: Seq<char>)
    requires
        lsn_value(s) is Some,
    ensures
        is_ascii_chars(s),
{
    lemma_slash_place(s);
    let slash = slash_place(s);
    assert forall|i: int| 0 <= i < s.len() implies '\0' <= #[trigger] s[i] <= '\u{7f}' by {
        if i < slash {
            assert(hex_digit(s.take(slash)[i]) is Some);
        } else if i > slash {
            assert(hex_digit(s.skip(slash + 1)[i - slash - 1]) is Some);
        }
    }
}

proof fn lemma_hex_bound(s: Seq<char>)
    requires
        s.len() <= 7,
        forall|i: int| 0 <= i < s.len() ==> hex_digit(#[trigger] s[i]) is Some,
    ensures
        0 <= hex_value(s) < 0x1000_0000,
{
    reveal_with_fuel(hex_value, 8);
    assert(forall|i: int| 0 <= i < s.len() ==> 0 <= hex_digit(#[trigger] s[i])->0 < 16);
}

impl Lsn {
    /// Reads an LSN in the form that PostgreSQL writes.
    pub fn parse(s: &str) -> (lsn: Result<Lsn, PgWireError>)
        ensures
            match lsn {
                Ok(position) => lsn_value(s@) == Some(position.0 as int),
                Err(e) => lsn_value(s@) is None && e@ == ErrorView::Protocol(no_lsn(s@)),
            },
    {
        match Lsn::read(s) {
            Some(position) => Ok(position),
            None => Err(PgWireError::Protocol(join2("invalid LSN: ", s))),
        }
    }

    /// The LSN in the form that PostgreSQL writes.
    pub fn to_string(&self) -> (s: String)
        ensures
            s@ == lsn_text(self.0 as nat),
    {
        proof {
            reveal_strlit("/");
        }
        let high = hex_text(self.0 / 0x1_0000_0000);
        let low = hex_text(self.0 % 0x1_0000_0000);
        assert("/"@ =~= seq!['/']);
        high.concat("/").concat(low.as_str())
    }

    fn read(s: &str) -> (lsn: Option<Lsn>)
        ensures
            match lsn {
                Some(position) => lsn_value(s@) == Some(position.0 as int),
                None => lsn_value(s@) is None,
            },
    {
        if !s.is_ascii() {
            proof {
                if lsn_value(s@) is Some {
                    lemma_lsn_is_ascii(s@);
                }
            }
            return None;
        }
        let b = s.as_bytes();
        assert(ascii_chars(b@) =~= s@);
        let slash: usize = find_slash(b);
        if slash == b.len() {
            return None;
        }
        let high = slice_subrange(b, 0, slash);
        let low = slice_subrange(b, slash + 1, b.len());
        assert(ascii_chars(high@) =~= s@.take(slash as int));
        assert(ascii_chars(low@) =~= s@.skip(slash + 1));
        match (read_half(high), read_half(low)) {
            (Some(h), Some(l)) => Some(Lsn(h as u64 * 0x1_0000_0000 + l as u64)),
            _ => None,
        }
    }
}

/// The text of one hexadecimal digit.
fn hex_digit_text(d: u64) -> (s: &'static str)
    requires
        d < 16,
    ensures
        s@ == seq![hex_char(d as int)],
{
    proof {
        reveal_strlit("0");
        reveal_strlit("1");
        reveal_strlit("2");
        reveal_strlit("3");
        reveal_strlit("4");
        reveal_strlit("5");
        reveal_strlit("6");
        reveal_strlit("7");
        reveal_strlit("8");
        reveal_strlit("9");
        reveal_strlit("A");
        reveal_strlit("B");
        reveal_strlit("C");
        reveal_strlit("D");
        reveal_strlit("E");
        reveal_strlit("F");
    }
    match d {
        0 => "0",
        1 => "1",
        2 => "2",
        3 => "3",
        4 => "4",
        5 => "5",
        6 => "6",
        7 => "7",
        8 => "8",
        9 => "9",
        10 => "A",
        11 => "B",
        12 => "C",
        13 => "D",
        14 => "E",
        _ => "F",
    }
}

/// Writes a number in hexadecimal.
fn hex_text(n: u64) -> (s: String)
    ensures
        s@ == hex(n as nat),
    decreases n,
{
    if n < 16 {
        hex_digit_text(n).to_owned()
    } else {
        hex_text(n / 16).concat(hex_digit_text(n % 16))
    }
}

/// The place of the first slash, or the length where there is none.
fn find_slash(b: &[u8]) -> (place: usize)
    ensures
        place == slash_place(ascii_chars(b@)),
        place <= b.len(),
{
    let mut place: usize = 0;
    let ghost s = ascii_chars(b@);
    assert(s.skip(0) =~= s);
    while place < b.len() && b[place] != 0x2f
        invariant
            s == ascii_chars(b@),
            place <= b.len(),
            slash_place(s) == place + slash_place(s.skip(place as int)),
        decreases b.len() - place,
    {
        assert(s.skip(place as int).skip(1) =~= s.skip(place + 1));
        place = place + 1;
    }
    place
}

/// Reads half of an LSN.
fn read_half(b: &[u8]) -> (value: Option<u32>)
    ensures
        match value {
            Some(v) => is_lsn_half(ascii_chars(b@)) && v == hex_value(ascii_chars(b@)),
            None => !is_lsn_half(ascii_chars(b@)),
        },
{
    let ghost s = ascii_chars(b@);
    if b.len() < 1 || b.len() > 8 {
        return None;
    }
    let mut value: u32 = 0;
    let mut i: usize = 0;
    while i < b.len()
        invariant
            s == ascii_chars(b@),
            i <= b.len() <= 8,
            forall|j: int| 0 <= j < i ==> hex_digit(#[trigger] s[j]) is Some,
            value == hex_value(s.take(i as int)),
        decreases b.len() - i,
    {
        let c: u8 = b[i];
        assert(s[i as int] == c as char);
        let digit: u32 = if 0x30 <= c && c <= 0x39 {
            (c - 0x30) as u32
        } else if 0x41 <= c && c <= 0x46 {
            (c - 0x41 + 10) as u32
        } else if 0x61 <= c && c <= 0x66 {
            (c - 0x61 + 10) as u32
        } else {
            assert(hex_digit(s[i as int]) is None);
            return None;
        };
        proof {
            lemma_hex_bound(s.take(i as int));
            assert(s.take(i + 1).drop_last() =~= s.take(i as int));
        }
        value = value * 16 + digit;
        i = i + 1;
    }
    assert(s.take(i as int) =~= s);
    Some(value)
}

proof fn lemma_hex(n: nat, digits: nat)
    requires
        1 <= digits <= 8,
        n < pow(16, digits),
    ensures
        1 <= hex(n).len() <= digits,
        hex_value(hex(n)) == n,
        forall|i: int| 0 <= i < hex(n).len() ==> hex_digit(#[trigger] hex(n)[i]) is Some,
    decreases n,
{
    reveal(pow);
    reveal_with_fuel(hex_value, 2);
    if n < 16 {
        assert(hex(n).drop_last() =~= seq![]);
    } else {
        if digits == 1 {
            assert(pow(16, 0) == 1);
        }
        lemma_hex(n / 16, (digits - 1) as nat);
        assert(hex(n).drop_last() =~= hex(n / 16));
    }
}

proof fn lemma_no_slash(head: Seq<char>, tail: Seq<char>)
    requires
        forall|i: int| 0 <= i < head.len() ==> hex_digit(#[trigger] head[i]) is Some,
    ensures
        slash_place(head + tail) == head.len() + slash_place(tail),
    decreases head.len(),
{
    if head.len() == 0 {
        assert(head + tail =~= tail);
    } else {
        let rest = head.skip(1);
        assert((head + tail).skip(1) =~= rest + tail);
        assert(forall|i: int| 0 <= i < rest.len() ==> rest[i] == head[i + 1]);
        assert(hex_digit(head[0]) is Some);
        lemma_no_slash(rest, tail);
    }
}

/// Every position is read back from the text that PostgreSQL writes for it, which
/// is ASCII and at most 17 characters long.
pub proof fn law_lsn_read_back(lsn: Lsn)
    ensures
        lsn_value(lsn_text(lsn.0 as nat)) == Some(lsn.0 as int),
        is_ascii_chars(lsn_text(lsn.0 as nat)),
        lsn_text(lsn.0 as nat).len() <= 17,
{
    let v = lsn.0 as nat;
    let high = hex(v / 0x1_0000_0000);
    let low = hex(v % 0x1_0000_0000);
    let s = lsn_text(v);
    assert(pow(16, 8) == 0x1_0000_0000) by {
        reveal_with_fuel(pow, 9);
    }
    lemma_hex(v / 0x1_0000_0000, 8);
    lemma_hex(v % 0x1_0000_0000, 8);
    assert(s =~= high + (seq!['/'] + low));
    lemma_no_slash(high, seq!['/'] + low);
    assert(s.take(high.len() as int) =~= high);
    assert(s.skip(high.len() as int + 1) =~= low);
    lemma_lsn_is_ascii(s);
}

/// `c` is a hexadecimal digit of either case.
pub open spec fn is_hex_char(c: char) -> bool {
    "0123456789ABCDEFabcdef"@.contains(c)
}

/// `s` is 1 to 8 hexadecimal digits.
pub open spec fn is_hex_half(s: Seq<char>) -> bool {
    &&& 1 <= s.len() <= 8
    &&& forall|i: int| 0 <= i < s.len() ==> is_hex_char(#[trigger] s[i])
}

proof fn lemma_hex_char(c: char)
    ensures
        is_hex_char(c) <==> hex_digit(c) is Some,
        is_hex_char(c) ==> c != '/',
{
    reveal_strlit("0123456789ABCDEFabcdef");
    let all = "0123456789ABCDEFabcdef"@;
    if let Some(d) = hex_digit(c) {
        if d < 10 {
            assert(all[d] == c);
        } else if c as int <= 'F' as int {
            assert(all[d] == c);
        } else {
            assert(all[d + 6] == c);
        }
    }
}

proof fn lemma_half(s: Seq<char>)
    ensures
        is_hex_half(s) <==> is_lsn_half(s),
{
    assert forall|i: int| 0 <= i < s.len() implies (is_hex_char(#[trigger] s[i]) <==> hex_digit(
        s[i],
    ) is Some) by {
        lemma_hex_char(s[i]);
    }
}

proof fn lemma_halves(high: Seq<char>, low: Seq<char>)
    requires
        is_hex_half(high),
        is_hex_half(low),
    ensures
        lsn_value(high + seq!['/'] + low) == Some(hex_value(high) * 0x1_0000_0000 + hex_value(low)),
{
    let s = high + seq!['/'] + low;
    lemma_half(high);
    lemma_half(low);
    assert(s =~= high + (seq!['/'] + low));
    lemma_no_slash(high, seq!['/'] + low);
    assert(s.take(high.len() as int) =~= high);
    assert(s.skip(high.len() as int + 1) =~= low);
}

/// A text is taken for an LSN exactly where it is two halves of 1 to 8 hexadecimal
/// digits, of either case, with a slash between them. Of any other text the error
/// repeats the whole of it.
pub proof fn law_lsn_is_two_hex_halves(s: &str, lsn: Result<Lsn, PgWireError>)
    requires
        call_ensures(Lsn::parse, (s,), lsn),
    ensures
        lsn is Ok <==> exists|high: Seq<char>, low: Seq<char>|
            s@ == #[trigger] (high + seq!['/'] + low) && is_hex_half(high) && is_hex_half(low),
        lsn matches Err(e) ==> (e matches PgWireError::Protocol(text) && text@ == "invalid LSN: "@
            + s@),
{
    if lsn is Ok {
        lemma_slash_place(s@);
        let slash = slash_place(s@);
        let high = s@.take(slash);
        let low = s@.skip(slash + 1);
        lemma_half(high);
        lemma_half(low);
        assert(s@ =~= high + seq!['/'] + low);
    } else {
        assert forall|high: Seq<char>, low: Seq<char>|
            s@ == #[trigger] (high + seq!['/'] + low) implies !(is_hex_half(high) && is_hex_half(
            low,
        )) by {
            if is_hex_half(high) && is_hex_half(low) {
                lemma_halves(high, low);
            }
        }
    }
}

/// The two halves are the high and the low 32 bits: each text with a half of its own
/// gives the same half of the position, whatever the other half is.
pub proof fn law_lsn_halves_are_apart(
    one: &str,
    two: &str,
    lsn: Result<Lsn, PgWireError>,
    other: Result<Lsn, PgWireError>,
    high: Seq<char>,
    low: Seq<char>,
    other_high: Seq<char>,
    other_low: Seq<char>,
)
    requires
        call_ensures(Lsn::parse, (one,), lsn),
        call_ensures(Lsn::parse, (two,), other),
        one@ == high + seq!['/'] + low,
        two@ == other_high + seq!['/'] + other_low,
        is_hex_half(high) && is_hex_half(low) && is_hex_half(other_high) && is_hex_half(other_low),
    ensures
        lsn is Ok && other is Ok,
        high == other_high ==> lsn->Ok_0.0 / 0x1_0000_0000 == other->Ok_0.0 / 0x1_0000_0000,
        low == other_low ==> lsn->Ok_0.0 % 0x1_0000_0000 == other->Ok_0.0 % 0x1_0000_0000,
{
    lemma_halves(high, low);
    lemma_halves(other_high, other_low);
    lemma_half_bound(low);
    lemma_half_bound(other_low);
}

proof fn lemma_half_bound(s: Seq<char>)
    requires
        is_hex_half(s),
    ensures
        0 <= hex_value(s) < 0x1_0000_0000,
{
    lemma_half(s);
    let front = s.drop_last();
    assert(forall|i: int| 0 <= i < front.len() ==> front[i] == s[i]);
    lemma_hex_bound(front);
    assert(hex_digit(s[s.len() - 1]) is Some);
}

/// One more digit at the end of a half makes it sixteen times as large, and adds the
/// value of the digit: that of its place among the digits of either case.
pub proof fn law_lsn_digits_count_in_sixteens(
    one: &str,
    in_low: &str,
    in_high: &str,
    lsn: Result<Lsn, PgWireError>,
    low_lsn: Result<Lsn, PgWireError>,
    high_lsn: Result<Lsn, PgWireError>,
    high: Seq<char>,
    low: Seq<char>,
    digit: int,
    c: char,
)
    requires
        call_ensures(Lsn::parse, (one,), lsn),
        call_ensures(Lsn::parse, (in_low,), low_lsn),
        call_ensures(Lsn::parse, (in_high,), high_lsn),
        one@ == high + seq!['/'] + low,
        in_low@ == high + seq!['/'] + low.push(c),
        in_high@ == high.push(c) + seq!['/'] + low,
        is_hex_half(high) && is_hex_half(low),
        high.len() < 8 && low.len() < 8,
        0 <= digit < 16,
        c == "0123456789ABCDEF"@[digit] || c == "0123456789abcdef"@[digit],
    ensures
        lsn is Ok && low_lsn is Ok && high_lsn is Ok,
        low_lsn->Ok_0.0 == lsn->Ok_0.0 + 15 * (lsn->Ok_0.0 % 0x1_0000_0000) + digit,
        high_lsn->Ok_0.0 == lsn->Ok_0.0 + (15 * (lsn->Ok_0.0 / 0x1_0000_0000) + digit)
            * 0x1_0000_0000,
{
    lemma_digit_value(c, digit);
    lemma_half_with(high, c);
    lemma_half_with(low, c);
    lemma_halves(high, low);
    lemma_halves(high, low.push(c));
    lemma_halves(high.push(c), low);
    lemma_half_bound(low);
    lemma_half_bound(high);
}

proof fn lemma_half_with(s: Seq<char>, c: char)
    requires
        is_hex_half(s),
        s.len() < 8,
        is_hex_char(c),
    ensures
        is_hex_half(s.push(c)),
        hex_value(s.push(c)) == hex_value(s) * 16 + hex_digit(c)->0,
{
    assert(s.push(c).drop_last() =~= s);
}

proof fn lemma_digit_value(c: char, digit: int)
    requires
        0 <= digit < 16,
        c == "0123456789ABCDEF"@[digit] || c == "0123456789abcdef"@[digit],
    ensures
        is_hex_char(c),
        hex_digit(c) == Some(digit),
{
    reveal_strlit("0123456789ABCDEF");
    reveal_strlit("0123456789abcdef");
    lemma_hex_char(c);
}

/// One digit in each half is worth what its place among the digits says.
pub proof fn law_lsn_of_two_digits(
    s: &str,
    lsn: Result<Lsn, PgWireError>,
    high: int,
    low: int,
    c: char,
    d: char,
)
    requires
        call_ensures(Lsn::parse, (s,), lsn),
        s@ == seq![c, '/', d],
        0 <= high < 16,
        0 <= low < 16,
        c == "0123456789ABCDEF"@[high] || c == "0123456789abcdef"@[high],
        d == "0123456789ABCDEF"@[low] || d == "0123456789abcdef"@[low],
    ensures
        lsn matches Ok(position) && position.0 == high * 0x1_0000_0000 + low,
{
    lemma_digit_value(c, high);
    lemma_digit_value(d, low);
    reveal_with_fuel(hex_value, 2);
    assert(seq![c].drop_last() =~= seq![]);
    assert(seq![d].drop_last() =~= seq![]);
    lemma_halves(seq![c], seq![d]);
    assert(s@ =~= seq![c] + seq!['/'] + seq![d]);
}

/// What `to_string` writes, `parse` reads back, for every position.
pub proof fn law_written_lsn_is_parsed(
    lsn: &Lsn,
    written: String,
    s: &str,
    read: Result<Lsn, PgWireError>,
)
    requires
        call_ensures(Lsn::to_string, (lsn,), written),
        s@ == written@,
        call_ensures(Lsn::parse, (s,), read),
    ensures
        read == Ok::<Lsn, PgWireError>(*lsn),
{
    law_lsn_read_back(*lsn);
}

/// `s` is written in upper case and without leading zeros.
pub open spec fn is_short_hex(s: Seq<char>) -> bool {
    &&& s.len() > 0
    &&& s.len() > 1 ==> s[0] != '0'
    &&& forall|i: int| 0 <= i < s.len() ==> "0123456789ABCDEF"@.contains(#[trigger] s[i])
}

/// `to_string` writes two halves in upper case, with a slash between them and
/// without leading zeros.
pub proof fn law_written_lsn_is_short(lsn: &Lsn, written: String) -> (halves: (
    Seq<char>,
    Seq<char>,
))
    requires
        call_ensures(Lsn::to_string, (lsn,), written),
    ensures
        written@ == halves.0 + seq!['/'] + halves.1,
        is_short_hex(halves.0),
        is_short_hex(halves.1),
{
    let v = lsn.0 as nat;
    lemma_short_hex(v / 0x1_0000_0000);
    lemma_short_hex(v % 0x1_0000_0000);
    (hex(v / 0x1_0000_0000), hex(v % 0x1_0000_0000))
}

proof fn lemma_short_hex(n: nat)
    ensures
        is_short_hex(hex(n)),
        n > 0 ==> hex(n)[0] != '0',
    decreases n,
{
    reveal_strlit("0123456789ABCDEF");
    let all = "0123456789ABCDEF"@;
    let last = (n % 16) as int;
    assert(all[last] == hex_char(last));
    if n >= 16 {
        lemma_short_hex(n / 16);
        let s = hex(n);
        let front = hex(n / 16);
        assert forall|i: int| 0 <= i < s.len() implies all.contains(#[trigger] s[i]) by {
            if i < front.len() {
                assert(s[i] == front[i]);
            }
        }
        assert(s[0] == front[0]);
    }
}

} // verus!
