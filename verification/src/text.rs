//! Verified decimal rendering of integers, used by the display contracts of
//! the error model.

use vstd::prelude::*;
use vstd::string::StringExecFns;

verus! {

/// The character for one decimal digit value.
pub open spec fn digit_char(d: int) -> char {
    if d == 0 {
        '0'
    } else if d == 1 {
        '1'
    } else if d == 2 {
        '2'
    } else if d == 3 {
        '3'
    } else if d == 4 {
        '4'
    } else if d == 5 {
        '5'
    } else if d == 6 {
        '6'
    } else if d == 7 {
        '7'
    } else if d == 8 {
        '8'
    } else {
        '9'
    }
}

/// The decimal digits of a non-negative integer, most significant first.
pub open spec fn spec_decimal_digits(n: int) -> Seq<char>
    recommends
        n >= 0,
    decreases n,
{
    if n < 10 {
        seq![digit_char(n)]
    } else {
        spec_decimal_digits(n / 10).push(digit_char(n % 10))
    }
}

/// The decimal rendering of a signed integer: a minus sign for negative
/// values, then the digits of the magnitude.
pub open spec fn spec_decimal_int(n: int) -> Seq<char> {
    if n < 0 {
        seq!['-'] + spec_decimal_digits(-n)
    } else {
        spec_decimal_digits(n)
    }
}

/// Appends the decimal digit character for `d` to `s`.
fn push_digit(s: &mut String, d: u64)
    requires
        d < 10,
    ensures
        final(s)@ == old(s)@ + seq![digit_char(d as int)],
{
    if d == 0 {
        s.append("0");
    } else if d == 1 {
        s.append("1");
    } else if d == 2 {
        s.append("2");
    } else if d == 3 {
        s.append("3");
    } else if d == 4 {
        s.append("4");
    } else if d == 5 {
        s.append("5");
    } else if d == 6 {
        s.append("6");
    } else if d == 7 {
        s.append("7");
    } else if d == 8 {
        s.append("8");
    } else {
        s.append("9");
    }
    proof {
        reveal_strlit("0");
        reveal_strlit("1");
        reveal_strlit("2");
        reveal_strlit("3");
        reveal_strlit("4");
        reveal_strlit("5");
        reveal_strlit("6");
        reveal_strlit("7");
        reveal_strlit("8");
        reveal_strlit("9");
        assert(s@ =~= old(s)@ + seq![digit_char(d as int)]);
    }
}

/// Appends the decimal digits of `n` to `s`.
fn push_decimal_digits(s: &mut String, n: u64)
    ensures
        final(s)@ == old(s)@ + spec_decimal_digits(n as int),
    decreases n,
{
    if n >= 10 {
        push_decimal_digits(s, n / 10);
    }
    let ghost mid = s@;
    push_digit(s, n % 10);
    proof {
        if n >= 10 {
            assert(spec_decimal_digits(n as int) =~= spec_decimal_digits(n as int / 10) + seq![
                digit_char(n as int % 10),
            ]);
            assert(s@ =~= old(s)@ + spec_decimal_digits(n as int));
        } else {
            assert(s@ =~= old(s)@ + spec_decimal_digits(n as int));
        }
    }
}

/// The decimal rendering of an unsigned integer.
pub fn u64_to_string(n: u64) -> (r: String)
    ensures
        r@ == spec_decimal_digits(n as int),
{
    let mut s = String::new();
    push_decimal_digits(&mut s, n);
    proof {
        assert(Seq::<char>::empty() + spec_decimal_digits(n as int) =~= spec_decimal_digits(
            n as int,
        ));
    }
    s
}

/// The decimal rendering of a signed integer, with a leading minus sign for
/// negative values.
pub fn i64_to_string(n: i64) -> (r: String)
    ensures
        r@ == spec_decimal_int(n as int),
{
    if n >= 0 {
        u64_to_string(n as u64)
    } else {
        let magnitude = (-(n as i128)) as u64;
        let mut s = String::from_str("-");
        push_decimal_digits(&mut s, magnitude);
        proof {
            reveal_strlit("-");
            assert(s@ =~= spec_decimal_int(n as int));
        }
        s
    }
}

} // verus!
