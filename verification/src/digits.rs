//! Decimal parsing and rendering of the integers the service works with:
//! query parameters are parsed as `u32`, and HTTP status codes are rendered
//! back into log text as `u16`.

use vstd::prelude::*;
use vstd::string::StrSliceExecFns;
use vstd::string::StringExecFns;

verus! {

/// Why a numeric parse failed. The cases mirror the distinctions that
/// std's integer parsing reports for unsigned targets.
#[derive(Clone, Copy, Debug, PartialEq, Eq, Structural)]
pub enum ParseFailure {
    /// The input held no characters at all.
    Empty,
    /// A character that is not a decimal digit was found.
    InvalidDigit,
    /// The digits denote a value above `u32::MAX`.
    Overflow,
}

pub open spec fn is_digit(c: char) -> bool {
    '0' as int <= c as int && c as int <= '9' as int
}

pub open spec fn digit_value(c: char) -> int {
    c as int - '0' as int
}

/// Result of scanning a run of characters left to right with accumulator
/// `acc`: a non-digit is rejected first, a value beyond `u32::MAX` second.
pub open spec fn parse_digits(s: Seq<char>, acc: int) -> Result<u32, ParseFailure>
    recommends
        0 <= acc <= u32::MAX,
    decreases s.len(),
{
    if s.len() == 0 {
        Ok(acc as u32)
    } else if !is_digit(s[0]) {
        Err(ParseFailure::InvalidDigit)
    } else if acc * 10 + digit_value(s[0]) > u32::MAX {
        Err(ParseFailure::Overflow)
    } else {
        parse_digits(s.drop_first(), acc * 10 + digit_value(s[0]))
    }
}

/// What `parse_u32` returns for any input: an optional leading `+`
/// followed by at least one decimal digit, with the value within `u32`.
pub open spec fn parse_u32_spec(s: Seq<char>) -> Result<u32, ParseFailure> {
    if s.len() == 0 {
        Err(ParseFailure::Empty)
    } else {
        let digits = if s[0] == '+' {
            s.drop_first()
        } else {
            s
        };
        if digits.len() == 0 {
            Err(ParseFailure::InvalidDigit)
        } else {
            parse_digits(digits, 0)
        }
    }
}

/// Parses a decimal `u32`, accepting an optional leading `+`.
pub fn parse_u32(s: &str) -> (r: Result<u32, ParseFailure>)
    ensures
        r == parse_u32_spec(s@),
{
    let n = s.unicode_len();
    if n == 0 {
        return Err(ParseFailure::Empty);
    }
    let first = s.get_char(0);
    let start: usize = if first == '+' {
        1
    } else {
        0
    };
    if start == n {
        return Err(ParseFailure::InvalidDigit);
    }
    proof {
        assert(s@.subrange(start as int, n as int) =~= (if s@[0] == '+' {
            s@.drop_first()
        } else {
            s@
        }));
    }
    let mut acc: u32 = 0;
    let mut i: usize = start;
    while i < n
        invariant
            n == s@.len(),
            0 < n,
            start <= i <= n,
            start < n,
            start == 1 || start == 0,
            (start == 1) == (s@[0] == '+'),
            parse_u32_spec(s@) == parse_digits(s@.subrange(i as int, n as int), acc as int),
        decreases n - i,
    {
        let ghost tail = s@.subrange(i as int, n as int);
        let c = s.get_char(i);
        proof {
            assert(tail[0] == s@[i as int]);
        }
        if c < '0' || c > '9' {
            return Err(ParseFailure::InvalidDigit);
        }
        let d: u32 = c as u32 - '0' as u32;
        let wide: u64 = acc as u64 * 10 + d as u64;
        if wide > u32::MAX as u64 {
            return Err(ParseFailure::Overflow);
        }
        proof {
            assert(tail.drop_first() =~= s@.subrange(i + 1, n as int));
        }
        acc = wide as u32;
        i = i + 1;
    }
    proof {
        assert(s@.subrange(i as int, n as int).len() == 0);
    }
    Ok(acc)
}

/// The message std's parser prints for each failure, reused verbatim
/// when a parse failure is rendered inside a client-facing message.
pub open spec fn parse_failure_text(f: ParseFailure) -> Seq<char> {
    match f {
        ParseFailure::Empty => "cannot parse integer from empty string"@,
        ParseFailure::InvalidDigit => "invalid digit found in string"@,
        ParseFailure::Overflow => "number too large to fit in target type"@,
    }
}

impl ParseFailure {
    /// The textual form of this failure.
    pub fn text(&self) -> (r: &'static str)
        ensures
            r@ == parse_failure_text(*self),
    {
        match self {
            ParseFailure::Empty => "cannot parse integer from empty string",
            ParseFailure::InvalidDigit => "invalid digit found in string",
            ParseFailure::Overflow => "number too large to fit in target type",
        }
    }
}

/// The decimal digit `d` as a character, for `0 <= d <= 9`.
pub open spec fn digit_char(d: int) -> char {
    if d == 0 {
        '0'
    } else if d == 1 {
        '1'
    } else if d == 2 {
        '2'
    } else if d == 3 {
        '3'
    } else if d == 4 {
        '4'
    } else if d == 5 {
        '5'
    } else if d == 6 {
        '6'
    } else if d == 7 {
        '7'
    } else if d == 8 {
        '8'
    } else {
        '9'
    }
}

/// The decimal rendering of a non-negative integer, most significant
/// digit first, with no leading zeros except for zero itself.
pub open spec fn dec_rep(n: int) -> Seq<char>
    recommends
        n >= 0,
    decreases n,
{
    if n < 10 {
        seq![digit_char(n)]
    } else {
        dec_rep(n / 10) + seq![digit_char(n % 10)]
    }
}

fn digit_str(d: u16) -> (r: &'static str)
    requires
        d < 10,
    ensures
        r@ == seq![digit_char(d as int)],
{
    proof {
        reveal_strlit("0");
        reveal_strlit("1");
        reveal_strlit("2");
        reveal_strlit("3");
        reveal_strlit("4");
        reveal_strlit("5");
        reveal_strlit("6");
        reveal_strlit("7");
        reveal_strlit("8");
        reveal_strlit("9");
    }
    let r: &'static str = match d {
        0 => "0",
        1 => "1",
        2 => "2",
        3 => "3",
        4 => "4",
        5 => "5",
        6 => "6",
        7 => "7",
        8 => "8",
        _ => "9",
    };
    proof {
        assert(r@ =~= seq![digit_char(d as int)]);
    }
    r
}

/// Renders a `u16` in decimal, as status codes appear in log text.
pub fn u16_to_dec(n: u16) -> (r: String)
    ensures
        r@ == dec_rep(n as int),
    decreases n,
{
    if n < 10 {
        digit_str(n).to_owned()
    } else {
        let prefix = u16_to_dec(n / 10);
        prefix.concat(digit_str(n % 10))
    }
}

} // verus!
