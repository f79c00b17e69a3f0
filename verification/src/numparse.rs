//! Base-10 parsing of signed 64-bit integers from a character sequence,
//! with the same acceptance rules and error taxonomy as integer parsing in
//! the standard library: an optional leading `+` or `-`, then one or more
//! ASCII digits, nothing else; digits are consumed left to right and an
//! out-of-range value is reported as soon as it arises.

use vstd::prelude::*;
use vstd::string::StrSliceExecFns;

verus! {

/// Why a string failed to parse as an integer.
#[derive(Debug, PartialEq, Eq, Structural, Clone, Copy)]
pub enum IntParseError {
    Empty,
    InvalidDigit,
    PosOverflow,
    NegOverflow,
}

impl IntParseError {
    /// The diagnostic wording for each failure.
    pub open spec fn spec_text(&self) -> Seq<char> {
        match self {
            IntParseError::Empty => "cannot parse integer from empty string"@,
            IntParseError::InvalidDigit => "invalid digit found in string"@,
            IntParseError::PosOverflow => "number too large to fit in target type"@,
            IntParseError::NegOverflow => "number too small to fit in target type"@,
        }
    }

    pub fn text(&self) -> (r: &'static str)
        ensures
            r@ == self.spec_text(),
    {
        match self {
            IntParseError::Empty => "cannot parse integer from empty string",
            IntParseError::InvalidDigit => "invalid digit found in string",
            IntParseError::PosOverflow => "number too large to fit in target type",
            IntParseError::NegOverflow => "number too small to fit in target type",
        }
    }
}

pub open spec fn spec_is_digit(c: char) -> bool {
    '0' <= c && c <= '9'
}

pub open spec fn spec_digit_val(c: char) -> int {
    c as int - '0' as int
}

/// Consume `s` as a run of digits, accumulating onto `acc` a magnitude that
/// may not pass `bound`; `neg` only selects which overflow error to report.
pub open spec fn spec_parse_digits(s: Seq<char>, acc: int, bound: int, neg: bool) -> Result<
    int,
    IntParseError,
>
    decreases s.len(),
{
    if s.len() == 0 {
        Ok(acc)
    } else if !spec_is_digit(s[0]) {
        Err(IntParseError::InvalidDigit)
    } else if acc * 10 + spec_digit_val(s[0]) > bound {
        if neg {
            Err(IntParseError::NegOverflow)
        } else {
            Err(IntParseError::PosOverflow)
        }
    } else {
        spec_parse_digits(s.drop_first(), acc * 10 + spec_digit_val(s[0]), bound, neg)
    }
}

/// Apply the sign to a parsed magnitude, passing errors through.
pub open spec fn spec_apply_sign(r: Result<int, IntParseError>, neg: bool) -> Result<
    i64,
    IntParseError,
> {
    match r {
        Ok(v) => if neg {
            Ok((-v) as i64)
        } else {
            Ok(v as i64)
        },
        Err(e) => Err(e),
    }
}

/// What parsing a whole character sequence as an `i64` yields.
pub open spec fn spec_parse_i64(s: Seq<char>) -> Result<i64, IntParseError> {
    if s.len() == 0 {
        Err(IntParseError::Empty)
    } else if (s[0] == '+' || s[0] == '-') && s.len() == 1 {
        Err(IntParseError::InvalidDigit)
    } else if s[0] == '+' {
        spec_apply_sign(spec_parse_digits(s.drop_first(), 0, i64::MAX as int, false), false)
    } else if s[0] == '-' {
        spec_apply_sign(spec_parse_digits(s.drop_first(), 0, -(i64::MIN as int), true), true)
    } else {
        spec_apply_sign(spec_parse_digits(s, 0, i64::MAX as int, false), false)
    }
}

/// Parse `s` as a base-10 signed 64-bit integer.
pub fn parse_i64(s: &str) -> (r: Result<i64, IntParseError>)
    ensures
        r == spec_parse_i64(s@),
{
    let n = s.unicode_len();
    if n == 0 {
        return Err(IntParseError::Empty);
    }
    let first = s.get_char(0);
    let neg: bool;
    let start: usize;
    if first == '+' || first == '-' {
        if n == 1 {
            return Err(IntParseError::InvalidDigit);
        }
        neg = first == '-';
        start = 1;
    } else {
        neg = false;
        start = 0;
    }
    let bound: u64 = if neg {
        9223372036854775808
    } else {
        9223372036854775807
    };
    proof {
        assert(s@.drop_first() =~= s@.subrange(1, n as int));
        assert(s@ =~= s@.subrange(0, n as int));
    }
    let mut i: usize = start;
    let mut acc: u64 = 0;
    while i < n
        invariant
            start <= i <= n,
            n == s@.len(),
            bound == if neg { 9223372036854775808u64 } else { 9223372036854775807u64 },
            acc <= bound,
            spec_parse_i64(s@) == spec_apply_sign(
                spec_parse_digits(s@.subrange(i as int, n as int), acc as int, bound as int, neg),
                neg,
            ),
        decreases n - i,
    {
        let c = s.get_char(i);
        if !(c >= '0' && c <= '9') {
            return Err(IntParseError::InvalidDigit);
        }
        let d: u64 = ((c as u32) - ('0' as u32)) as u64;
        assert(d == spec_digit_val(s@[i as int]) && d <= 9);
        if acc > bound / 10 || (acc == bound / 10 && d > bound % 10) {
            assert(acc * 10 + d > bound);
            if neg {
                return Err(IntParseError::NegOverflow);
            } else {
                return Err(IntParseError::PosOverflow);
            }
        }
        assert(acc * 10 + d <= bound);
        proof {
            assert(s@.subrange(i as int, n as int).drop_first() =~= s@.subrange(
                i as int + 1,
                n as int,
            ));
        }
        acc = acc * 10 + d;
        i += 1;
    }
    proof {
        assert(s@.subrange(n as int, n as int) =~= Seq::<char>::empty());
    }
    if neg {
        if acc == 9223372036854775808 {
            Ok(i64::MIN)
        } else {
            Ok(-(acc as i64))
        }
    } else {
        Ok(acc as i64)
    }
}

} // verus!
