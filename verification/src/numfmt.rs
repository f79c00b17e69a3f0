//! Rendering a signed 64-bit integer as its base-10 string: a leading `-`
//! for negative values, then the digits of the magnitude with no leading
//! zeros (except for zero itself).

use vstd::prelude::*;
use crate::strutil::push_char;

verus! {

pub open spec fn spec_digit_char(d: int) -> char {
    (('0' as u32) + d as u32) as char
}

/// The decimal digits of a magnitude, most significant first.
pub open spec fn spec_dec_digits(m: nat) -> Seq<char>
    decreases m,
{
    if m < 10 {
        seq![spec_digit_char(m as int)]
    } else {
        spec_dec_digits(m / 10) + seq![spec_digit_char((m % 10) as int)]
    }
}

/// The base-10 rendering of an integer.
pub open spec fn spec_dec_i64(n: int) -> Seq<char> {
    if n < 0 {
        seq!['-'] + spec_dec_digits((-n) as nat)
    } else {
        spec_dec_digits(n as nat)
    }
}

/// Render `n` in base 10.
pub fn i64_to_string(n: i64) -> (r: String)
    ensures
        r@ == spec_dec_i64(n as int),
{
    let neg = n < 0;
    let m0: u64 = if n >= 0 {
        n as u64
    } else {
        ((-(n + 1)) as u64) + 1
    };
    assert(m0 == if n >= 0 { n as int } else { -(n as int) });
    let mut m: u64 = m0;
    let mut rev: Vec<char> = Vec::new();
    while m >= 10
        invariant
            spec_dec_digits(m0 as nat) == spec_dec_digits(m as nat) + rev@.reverse(),
        decreases m,
    {
        let d: u64 = m % 10;
        let c = digit_to_char(d);
        proof {
            assert((rev@ + seq![spec_digit_char(d as int)]).reverse() =~= seq![
                spec_digit_char(d as int),
            ] + rev@.reverse());
            assert(spec_dec_digits((m / 10) as nat) + (seq![spec_digit_char(d as int)]
                + rev@.reverse()) =~= (spec_dec_digits((m / 10) as nat) + seq![
                spec_digit_char(d as int),
            ]) + rev@.reverse());
        }
        rev.push(c);
        m = m / 10;
    }
    let c = digit_to_char(m);
    proof {
        assert((rev@ + seq![spec_digit_char(m as int)]).reverse() =~= seq![
            spec_digit_char(m as int),
        ] + rev@.reverse());
    }
    rev.push(c);
    assert(spec_dec_digits(m0 as nat) == rev@.reverse());
    let mut out = String::new();
    if neg {
        push_char(&mut out, '-');
    }
    let ghost sign: Seq<char> = if neg { seq!['-'] } else { Seq::<char>::empty() };
    assert(out@ == sign);
    let mut j: usize = rev.len();
    while j > 0
        invariant
            j <= rev@.len(),
            out@ == sign + rev@.subrange(j as int, rev@.len() as int).reverse(),
        decreases j,
    {
        j -= 1;
        proof {
            assert(rev@.subrange(j as int, rev@.len() as int) =~= seq![rev@[j as int]]
                + rev@.subrange(j as int + 1, rev@.len() as int));
            assert((seq![rev@[j as int]] + rev@.subrange(j as int + 1, rev@.len() as int)).reverse()
                =~= rev@.subrange(j as int + 1, rev@.len() as int).reverse() + seq![
                rev@[j as int],
            ]);
        }
        let c = rev[j];
        push_char(&mut out, c);
        proof {
            assert(out@ =~= sign + rev@.subrange(j as int, rev@.len() as int).reverse());
        }
    }
    proof {
        assert(rev@.subrange(0, rev@.len() as int) =~= rev@);
        assert(out@ =~= spec_dec_i64(n as int));
    }
    out
}

/// The character for one decimal digit.
pub fn digit_to_char(d: u64) -> (c: char)
    requires
        d <= 9,
    ensures
        c == spec_digit_char(d as int),
{
    (48 + d as u32 as u8) as char
}

} // verus!
