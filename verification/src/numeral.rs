//! Decimal rendering of the port number that the internet-wide scan endpoint
//! sends as a form value.

use vstd::prelude::*;
use vstd::string::StringExecFns;

verus! {

/// The decimal digit character for one digit value.
pub open spec fn digit_char(d: nat) -> char {
    if d == 0 {
        '0'
    } else if d == 1 {
        '1'
    } else if d == 2 {
        '2'
    } else if d == 3 {
        '3'
    } else if d == 4 {
        '4'
    } else if d == 5 {
        '5'
    } else if d == 6 {
        '6'
    } else if d == 7 {
        '7'
    } else if d == 8 {
        '8'
    } else {
        '9'
    }
}

/// The decimal digits of a non-negative number, most significant first,
/// with no sign and no leading zero (a single `'0'` for zero itself).
pub open spec fn dec_digits(n: nat) -> Seq<char>
    decreases n,
{
    if n < 10 {
        seq![digit_char(n)]
    } else {
        dec_digits(n / 10) + seq![digit_char(n % 10)]
    }
}

/// The decimal rendering of an integer: the digits of its magnitude,
/// preceded by `'-'` when it is negative.
pub open spec fn dec_str(n: int) -> Seq<char> {
    if n < 0 {
        seq!['-'] + dec_digits((-n) as nat)
    } else {
        dec_digits(n as nat)
    }
}

/// The one-character string for one digit value.
fn digit_str(d: u32) -> (r: &'static str)
    requires
        d < 10,
    ensures
        r@ == seq![digit_char(d as nat)],
{
    proof {
        reveal_strlit("0");
        reveal_strlit("1");
        reveal_strlit("2");
        reveal_strlit("3");
        reveal_strlit("4");
        reveal_strlit("5");
        reveal_strlit("6");
        reveal_strlit("7");
        reveal_strlit("8");
        reveal_strlit("9");
    }
    let r = match d {
        0 => "0",
        1 => "1",
        2 => "2",
        3 => "3",
        4 => "4",
        5 => "5",
        6 => "6",
        7 => "7",
        8 => "8",
        _ => "9",
    };
    proof {
        assert(r@ =~= seq![digit_char(d as nat)]);
    }
    r
}

/// The decimal digits of a non-negative number, as a string.
pub fn u32_string(n: u32) -> (r: String)
    ensures
        r@ == dec_digits(n as nat),
    decreases n,
{
    if n < 10 {
        String::from_str(digit_str(n))
    } else {
        let prefix = u32_string(n / 10);
        prefix.concat(digit_str(n % 10))
    }
}

/// The decimal rendering of an integer, as a string; this is how a port
/// number becomes a form value.
pub fn decimal_string(n: i32) -> (r: String)
    ensures
        r@ == dec_str(n as int),
{
    if n >= 0 {
        u32_string(n as u32)
    } else {
        let wide: i64 = n as i64;
        let magnitude: u32 = (-wide) as u32;
        proof {
            assert(magnitude as int == -(n as int));
            reveal_strlit("-");
            assert("-"@ =~= seq!['-']);
        }
        String::from_str("-").concat(u32_string(magnitude).as_str())
    }
}

} // verus!
