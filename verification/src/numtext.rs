use vstd::prelude::*;
use vstd::string::StringExecFns;

verus! {

pub open spec fn dec_digit(d: int) -> char {
    if d == 0 {
        '0'
    } else if d == 1 {
        '1'
    } else if d == 2 {
        '2'
    } else if d == 3 {
        '3'
    } else if d == 4 {
        '4'
    } else if d == 5 {
        '5'
    } else if d == 6 {
        '6'
    } else if d == 7 {
        '7'
    } else if d == 8 {
        '8'
    } else {
        '9'
    }
}

/// The decimal digit string of a non-negative number, most significant digit
/// first and without leading zeros (a lone zero for zero itself).
pub open spec fn dec_str_nat(n: nat) -> Seq<char>
    decreases n,
{
    if n < 10 {
        seq![dec_digit(n as int)]
    } else {
        dec_str_nat(n / 10) + seq![dec_digit((n % 10) as int)]
    }
}

/// The decimal string of an integer: a minus sign before the magnitude for a
/// negative one.
pub open spec fn dec_str_int(n: int) -> Seq<char> {
    if n < 0 {
        seq!['-'] + dec_str_nat((-n) as nat)
    } else {
        dec_str_nat(n as nat)
    }
}

fn digit_str(d: u8) -> (r: &'static str)
    requires
        d < 10,
    ensures
        r@ =~= seq![dec_digit(d as int)],
{
    proof {
        reveal_strlit("0");
        reveal_strlit("1");
        reveal_strlit("2");
        reveal_strlit("3");
        reveal_strlit("4");
        reveal_strlit("5");
        reveal_strlit("6");
        reveal_strlit("7");
        reveal_strlit("8");
        reveal_strlit("9");
    }
    if d == 0 {
        "0"
    } else if d == 1 {
        "1"
    } else if d == 2 {
        "2"
    } else if d == 3 {
        "3"
    } else if d == 4 {
        "4"
    } else if d == 5 {
        "5"
    } else if d == 6 {
        "6"
    } else if d == 7 {
        "7"
    } else if d == 8 {
        "8"
    } else {
        "9"
    }
}

fn push_dec_u128(n: u128, out: &mut String)
    ensures
        final(out)@ == old(out)@ + dec_str_nat(n as nat),
    decreases n,
{
    if n >= 10 {
        push_dec_u128(n / 10, out);
    }
    let d: u8 = (n % 10) as u8;
    out.append(digit_str(d));
    proof {
        if n < 10 {
            assert(old(out)@ + dec_str_nat(n as nat) =~= old(out)@ + seq![
                dec_digit(n as int),
            ]);
        } else {
            assert(old(out)@ + dec_str_nat(n as nat) =~= (old(out)@ + dec_str_nat(
                (n / 10) as nat,
            )) + seq![dec_digit((n % 10) as int)]);
        }
    }
}

/// The raw numeric identifier of a catalog node, stringified in decimal.
pub fn decimal_string_i128(n: i128) -> (r: String)
    ensures
        r@ == dec_str_int(n as int),
{
    let mut out = String::new();
    if n < 0 {
        proof {
            reveal_strlit("-");
        }
        out.append("-");
        let m: u128 = ((-(n + 1)) as u128) + 1;
        proof {
            assert(m as int == -(n as int));
        }
        push_dec_u128(m, &mut out);
        proof {
            assert(out@ =~= seq!['-'] + dec_str_nat((-(n as int)) as nat));
        }
    } else {
        push_dec_u128(n as u128, &mut out);
    }
    out
}

} // verus!
