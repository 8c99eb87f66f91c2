//! Decimal rendering of integers, proved against a digit-sequence spec.

use vstd::prelude::*;
use vstd::string::StringExecFns;

verus! {

/// The character for one decimal digit.
pub open spec fn digit_char(d: nat) -> char {
    if d == 0 {
        '0'
    } else if d == 1 {
        '1'
    } else if d == 2 {
        '2'
    } else if d == 3 {
        '3'
    } else if d == 4 {
        '4'
    } else if d == 5 {
        '5'
    } else if d == 6 {
        '6'
    } else if d == 7 {
        '7'
    } else if d == 8 {
        '8'
    } else {
        '9'
    }
}

/// The decimal digits of a natural number, most significant first,
/// with no leading zero except for the number zero itself.
pub open spec fn dec_chars(n: nat) -> Seq<char>
    decreases n,
{
    if n < 10 {
        seq![digit_char(n)]
    } else {
        dec_chars(n / 10).push(digit_char(n % 10))
    }
}

/// The decimal rendering of an integer: a minus sign before the digits
/// of its magnitude when it is negative.
pub open spec fn int_chars(n: int) -> Seq<char> {
    if n < 0 {
        seq!['-'] + dec_chars((-n) as nat)
    } else {
        dec_chars(n as nat)
    }
}

/// The string for one decimal digit.
fn digit_str(d: u64) -> (r: &'static str)
    requires
        d < 10,
    ensures
        r@ == seq![digit_char(d as nat)],
{
    let r: &'static str = if d == 0 {
        "0"
    } else if d == 1 {
        "1"
    } else if d == 2 {
        "2"
    } else if d == 3 {
        "3"
    } else if d == 4 {
        "4"
    } else if d == 5 {
        "5"
    } else if d == 6 {
        "6"
    } else if d == 7 {
        "7"
    } else if d == 8 {
        "8"
    } else {
        "9"
    };
    proof {
        reveal_strlit("0");
        reveal_strlit("1");
        reveal_strlit("2");
        reveal_strlit("3");
        reveal_strlit("4");
        reveal_strlit("5");
        reveal_strlit("6");
        reveal_strlit("7");
        reveal_strlit("8");
        reveal_strlit("9");
        assert(r@ =~= seq![digit_char(d as nat)]);
    }
    r
}

/// Appends the decimal digits of `n` to `out`.
pub fn push_uint(out: &mut String, n: u64)
    ensures
        final(out)@ == old(out)@ + dec_chars(n as nat),
    decreases n,
{
    if n < 10 {
        out.append(digit_str(n));
        proof {
            assert(out@ =~= old(out)@ + dec_chars(n as nat));
        }
    } else {
        proof {
            assert(n / 10 < n) by (nonlinear_arith)
                requires
                    10 <= n,
            ;
        }
        push_uint(out, n / 10);
        out.append(digit_str(n % 10));
        proof {
            assert(out@ =~= old(out)@ + dec_chars(n as nat));
        }
    }
}

/// Appends the decimal rendering of `n` to `out`.
pub fn push_int(out: &mut String, n: i32)
    ensures
        final(out)@ == old(out)@ + int_chars(n as int),
{
    if n < 0 {
        out.append("-");
        let m: i64 = -(n as i64);
        push_uint(out, m as u64);
        proof {
            reveal_strlit("-");
            assert(out@ =~= old(out)@ + int_chars(n as int));
        }
    } else {
        push_uint(out, n as u64);
    }
}

} // verus!
