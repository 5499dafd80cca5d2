//! Decimal formatting of fixed-point amounts: an amount counted in
//! hundredths of a unit is written with exactly two digits after the
//! decimal point, as `format!("{:.2}", x)` writes a real number.

use vstd::prelude::*;

verus! {

use crate::arith::abs_of;

/// The decimal digit character for `d` in `0..=9`.
pub open spec fn digit_char(d: int) -> char {
    if d == 1 {
        '1'
    } else if d == 2 {
        '2'
    } else if d == 3 {
        '3'
    } else if d == 4 {
        '4'
    } else if d == 5 {
        '5'
    } else if d == 6 {
        '6'
    } else if d == 7 {
        '7'
    } else if d == 8 {
        '8'
    } else if d == 9 {
        '9'
    } else {
        '0'
    }
}

/// The decimal digits of a nonnegative integer, most significant first,
/// without leading zeros (a lone `0` for zero).
pub open spec fn dec_digits(n: int) -> Seq<char>
    recommends
        n >= 0,
    decreases n,
{
    if n <= 9 {
        seq![digit_char(n)]
    } else {
        dec_digits(n / 10) + seq![digit_char(n % 10)]
    }
}

/// Exactly two decimal digits for `n` in `0..=99`, zero-padded.
pub open spec fn two_digits(n: int) -> Seq<char>
    recommends
        0 <= n < 100,
{
    seq![digit_char(n / 10), digit_char(n % 10)]
}

/// The text of the fixed-point amount `n` (in hundredths): an optional
/// minus sign, the whole part, a point, and exactly two fractional digits.
pub open spec fn fixed_text(n: int) -> Seq<char> {
    let sign: Seq<char> = if n < 0 {
        seq!['-']
    } else {
        Seq::empty()
    };
    sign + dec_digits(abs_of(n) / 100) + seq!['.'] + two_digits(abs_of(n) % 100)
}

/// Appends the decimal digit character for `d`.
fn push_digit(out: &mut String, d: u128)
    requires
        d <= 9,
    ensures
        final(out)@ == old(out)@.push(digit_char(d as int)),
{
    if d == 1 {
        out.push('1');
    } else if d == 2 {
        out.push('2');
    } else if d == 3 {
        out.push('3');
    } else if d == 4 {
        out.push('4');
    } else if d == 5 {
        out.push('5');
    } else if d == 6 {
        out.push('6');
    } else if d == 7 {
        out.push('7');
    } else if d == 8 {
        out.push('8');
    } else if d == 9 {
        out.push('9');
    } else {
        out.push('0');
    }
}

/// Appends the decimal digits of `n`, most significant first.
pub fn push_decimal(out: &mut String, n: u128)
    ensures
        final(out)@ == old(out)@ + dec_digits(n as int),
    decreases n,
{
    if n <= 9 {
        push_digit(out, n);
        proof {
            assert(old(out)@ + dec_digits(n as int) =~= old(out)@.push(digit_char(n as int)));
        }
    } else {
        push_decimal(out, n / 10);
        push_digit(out, n % 10);
        proof {
            assert(old(out)@ + dec_digits(n as int) =~= (old(out)@ + dec_digits(n as int / 10)).push(
                digit_char(n as int % 10),
            ));
        }
    }
}

/// Appends the fixed-point amount `n` (in hundredths) with exactly two
/// digits after the decimal point.
pub fn push_fixed(out: &mut String, n: i128)
    requires
        n > i128::MIN,
    ensures
        final(out)@ == old(out)@ + fixed_text(n as int),
{
    let ghost start = out@;
    if n < 0 {
        out.push('-');
    }
    let a: u128 = if n < 0 {
        (-n) as u128
    } else {
        n as u128
    };
    push_decimal(out, a / 100);
    out.push('.');
    let frac: u128 = a % 100;
    proof {
        vstd::arithmetic::div_mod::lemma_mod_division_less_than_divisor(a as int, 100);
    }
    push_digit(out, frac / 10);
    push_digit(out, frac % 10);
    proof {
        assert(a == abs_of(n as int));
        assert(out@ =~= start + fixed_text(n as int));
    }
}

/// The fixed-point amount `n` (in hundredths) as its own string.
pub fn fixed_string(n: i128) -> (r: String)
    requires
        n > i128::MIN,
    ensures
        r@ == fixed_text(n as int),
{
    let mut out = String::new();
    push_fixed(&mut out, n);
    proof {
        assert(out@ =~= fixed_text(n as int));
    }
    out
}

} // verus!
