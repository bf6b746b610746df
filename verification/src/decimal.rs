//! Numbers as decimal text: how a block height travels as a string, how the
//! port stands in the daemon's address, and how the port is read from the
//! configuration file.

use crate::error::ParseIntError;
use crate::text::chars_of;
use vstd::prelude::*;

verus! {

pub open spec fn is_digit(c: char) -> bool {
    '0' <= c <= '9'
}

/// The number that a decimal digit stands for.
pub open spec fn digit_value(c: char) -> nat {
    (c as nat - '0' as nat) as nat
}

/// The decimal digit that stands for `d`.
pub open spec fn digit_char(d: nat) -> char {
    if d == 0 {
        '0'
    } else if d == 1 {
        '1'
    } else if d == 2 {
        '2'
    } else if d == 3 {
        '3'
    } else if d == 4 {
        '4'
    } else if d == 5 {
        '5'
    } else if d == 6 {
        '6'
    } else if d == 7 {
        '7'
    } else if d == 8 {
        '8'
    } else {
        '9'
    }
}

/// The decimal notation of `n`, without sign or leading zeros.
pub open spec fn decimal(n: nat) -> Seq<char>
    decreases n,
{
    if n < 10 {
        seq![digit_char(n)]
    } else {
        decimal(n / 10).push(digit_char(n % 10))
    }
}

/// What reading `s` as digits gives, from left to right, when the digits
/// before it have given `acc`: the first character that is no digit, or the
/// first digit with which the number leaves sixteen bits, ends the reading.
pub open spec fn read_digits(s: Seq<char>, acc: nat) -> Result<u16, ParseIntError>
    decreases s.len(),
{
    if s.len() == 0 {
        Ok(acc as u16)
    } else if !is_digit(s[0]) {
        Err(ParseIntError::InvalidDigit)
    } else if acc * 10 + digit_value(s[0]) > u16::MAX {
        Err(ParseIntError::PosOverflow)
    } else {
        read_digits(s.drop_first(), acc * 10 + digit_value(s[0]))
    }
}

/// What a text means as a sixteen-bit number: decimal digits, at least one,
/// behind an optional `+`.
pub open spec fn parsed_u16(s: Seq<char>) -> Result<u16, ParseIntError> {
    if s.len() == 0 {
        Err(ParseIntError::Empty)
    } else if s[0] == '+' {
        if s.len() == 1 {
            Err(ParseIntError::InvalidDigit)
        } else {
            read_digits(s.drop_first(), 0)
        }
    } else {
        read_digits(s, 0)
    }
}

/// Reading one more digit at the end continues from what the digits before
/// it gave.
pub proof fn lemma_read_digits_push(s: Seq<char>, acc: nat, c: char)
    requires
        acc <= u16::MAX,
    ensures
        read_digits(s.push(c), acc) == match read_digits(s, acc) {
            Ok(value) => read_digits(seq![c], value as nat),
            Err(e) => Err(e),
        },
    decreases s.len(),
{
    if s.len() == 0 {
        assert(s.push(c) =~= seq![c]);
    } else {
        assert(s.push(c)[0] == s[0]);
        assert(s.push(c).drop_first() =~= s.drop_first().push(c));
        if is_digit(s[0]) && acc * 10 + digit_value(s[0]) <= u16::MAX {
            lemma_read_digits_push(s.drop_first(), acc * 10 + digit_value(s[0]), c);
        }
    }
}

/// The decimal notation of a sixteen-bit number reads back as that number.
pub proof fn lemma_decimal_round_trip(n: u16)
    ensures
        parsed_u16(decimal(n as nat)) == Ok::<u16, ParseIntError>(n),
    decreases n,
{
    let s = decimal(n as nat);
    if n < 10 {
        assert(s.drop_first() =~= Seq::<char>::empty());
        assert(read_digits(s.drop_first(), n as nat) == Ok::<u16, ParseIntError>(n));
    } else {
        let head = (n / 10) as u16;
        let last = digit_char((n % 10) as nat);
        lemma_decimal_round_trip(head);
        lemma_decimal_first_is_digit(head as nat);
        lemma_read_digits_push(decimal(head as nat), 0, last);
        assert(seq![last].drop_first() =~= Seq::<char>::empty());
        assert(read_digits(seq![last].drop_first(), n as nat) == Ok::<u16, ParseIntError>(n));
        lemma_decimal_first_is_digit(n as nat);
    }
}

/// A decimal notation is never empty and starts with a digit.
pub proof fn lemma_decimal_first_is_digit(n: nat)
    ensures
        decimal(n).len() > 0,
        is_digit(decimal(n)[0]),
    decreases n,
{
    if n >= 10 {
        lemma_decimal_first_is_digit(n / 10);
    }
}

/// The digit for `d` as a text.
fn digit_str(d: u64) -> (s: &'static str)
    requires
        d < 10,
    ensures
        s@ == seq![digit_char(d as nat)],
{
    proof {
        reveal_strlit("0");
        reveal_strlit("1");
        reveal_strlit("2");
        reveal_strlit("3");
        reveal_strlit("4");
        reveal_strlit("5");
        reveal_strlit("6");
        reveal_strlit("7");
        reveal_strlit("8");
        reveal_strlit("9");
    }
    let s = if d == 0 {
        "0"
    } else if d == 1 {
        "1"
    } else if d == 2 {
        "2"
    } else if d == 3 {
        "3"
    } else if d == 4 {
        "4"
    } else if d == 5 {
        "5"
    } else if d == 6 {
        "6"
    } else if d == 7 {
        "7"
    } else if d == 8 {
        "8"
    } else {
        "9"
    };
    assert(s@ =~= seq![digit_char(d as nat)]);
    s
}

/// Writes `n` in decimal notation.
pub fn to_decimal(n: u64) -> (s: String)
    ensures
        s@ == decimal(n as nat),
    decreases n,
{
    if n < 10 {
        digit_str(n).to_owned()
    } else {
        let mut s = to_decimal(n / 10);
        s.append(digit_str(n % 10));
        s
    }
}

/// Reads a sixteen-bit number from its decimal notation.
pub fn parse_u16(s: &str) -> (parsed: Result<u16, ParseIntError>)
    ensures
        parsed == parsed_u16(s@),
{
    let chars = chars_of(s);
    let n = chars.len();
    if n == 0 {
        return Err(ParseIntError::Empty);
    }
    let mut i: usize = 0;
    if chars[0] == '+' {
        if n == 1 {
            return Err(ParseIntError::InvalidDigit);
        }
        i = 1;
        assert(s@.drop_first() =~= s@.subrange(1, n as int));
    } else {
        assert(s@ =~= s@.subrange(0, n as int));
    }
    let mut acc: u16 = 0;
    while i < n
        invariant
            i <= n,
            n == chars.len(),
            chars@ == s@,
            parsed_u16(s@) == read_digits(s@.subrange(i as int, n as int), acc as nat),
        decreases n - i,
    {
        let c = chars[i];
        let ghost rest = s@.subrange(i as int, n as int);
        assert(rest[0] == c);
        assert(rest.drop_first() =~= s@.subrange(i + 1, n as int));
        if c < '0' || c > '9' {
            return Err(ParseIntError::InvalidDigit);
        }
        let d = (c as u32 - '0' as u32) as u16;
        if acc > 6553 || (acc == 6553 && d > 5) {
            return Err(ParseIntError::PosOverflow);
        }
        acc = acc * 10 + d;
        i += 1;
    }
    Ok(acc)
}

} // verus!
