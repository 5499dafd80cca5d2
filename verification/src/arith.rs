//! Integer division helpers: mathematical floor division and round-to-nearest
//! division over signed operands, used by the fixed-point rendering code.

use vstd::prelude::*;

verus! {

use vstd::arithmetic::div_mod::{
    lemma_fundamental_div_mod,
    lemma_fundamental_div_mod_converse_div,
};

/// The absolute value of `n`.
pub open spec fn abs_of(n: int) -> int {
    if n < 0 {
        -n
    } else {
        n
    }
}

/// The mathematical floor of `n / d`: the greatest integer `q` with
/// `q * d <= n` when `d > 0`, and the same value as `floor_div(-n, -d)`
/// when `d < 0`.
pub open spec fn floor_div(n: int, d: int) -> int
    recommends
        d != 0,
{
    if d < 0 {
        (-n) / (-d)
    } else {
        n / d
    }
}

/// `n / d` rounded to the nearest integer, halves rounded up (toward
/// positive infinity).
pub open spec fn round_div(n: int, d: int) -> int
    recommends
        d != 0,
{
    let nn = if d < 0 {
        -n
    } else {
        n
    };
    floor_div(2 * nn + abs_of(d), 2 * abs_of(d))
}

/// Floor division brackets its dividend: `d * q <= n < d * (q + 1)` for a
/// positive divisor.
pub proof fn lemma_floor_div_bounds(n: int, d: int)
    requires
        d > 0,
    ensures
        d * floor_div(n, d) <= n,
        n < d * floor_div(n, d) + d,
{
    lemma_fundamental_div_mod(n, d);
    assert(0 <= n % d < d) by {
        vstd::arithmetic::div_mod::lemma_mod_division_less_than_divisor(n, d);
    }
}

/// The rounded quotient is within half a divisor of the exact quotient:
/// `-d < 2 * (round_div(n, d) * d - n) <= d` for a positive divisor.
pub proof fn lemma_round_div_accuracy(n: int, d: int)
    requires
        d > 0,
    ensures
        -d < 2 * (round_div(n, d) * d - n),
        2 * (round_div(n, d) * d - n) <= d,
{
    let q = round_div(n, d);
    lemma_floor_div_bounds(2 * n + d, 2 * d);
    assert(2 * d * q <= 2 * n + d < 2 * d * q + 2 * d);
    assert(2 * (q * d - n) <= d) by (nonlinear_arith)
        requires
            2 * d * q <= 2 * n + d,
    ;
    assert(-d < 2 * (q * d - n)) by (nonlinear_arith)
        requires
            2 * n + d < 2 * d * q + 2 * d,
    ;
}

/// Floor division of `n` by a positive `d`, computed over unsigned
/// magnitudes so that only unsigned machine division is used.
pub fn floor_div_pos(n: i128, d: i128) -> (q: i128)
    requires
        d > 0,
        n > i128::MIN,
    ensures
        q == floor_div(n as int, d as int),
{
    if n >= 0 {
        let na: u128 = n as u128;
        let da: u128 = d as u128;
        let q0: u128 = na / da;
        proof {
            lemma_fundamental_div_mod(na as int, da as int);
        }
        q0 as i128
    } else {
        let na: u128 = (-n) as u128;
        let da: u128 = d as u128;
        let q0: u128 = na / da;
        let r: u128 = na % da;
        if r == 0 {
            proof {
                lemma_fundamental_div_mod(na as int, da as int);
                assert(n == (-(q0 as int)) * d + 0) by (nonlinear_arith)
                    requires
                        na == da * (q0 as int),
                        n == -(na as int),
                        d == da,
                ;
                lemma_fundamental_div_mod_converse_div(n as int, d as int, -(q0 as int), 0);
            }
            -(q0 as i128)
        } else {
            proof {
                lemma_fundamental_div_mod(na as int, da as int);
                assert(0 <= na % da < da) by {
                    vstd::arithmetic::div_mod::lemma_mod_division_less_than_divisor(
                        na as int,
                        da as int,
                    );
                }
                assert(n == (-(q0 as int) - 1) * d + (d - r)) by (nonlinear_arith)
                    requires
                        na == da * (q0 as int) + r,
                        n == -(na as int),
                        d == da,
                ;
                lemma_fundamental_div_mod_converse_div(
                    n as int,
                    d as int,
                    -(q0 as int) - 1,
                    d - r,
                );
            }
            -(q0 as i128) - 1
        }
    }
}

/// Floor division for any nonzero divisor, by normalizing the divisor's
/// sign first.
pub fn floor_div_exec(n: i128, d: i128) -> (q: i128)
    requires
        d != 0,
        n > i128::MIN,
        d > i128::MIN,
    ensures
        q == floor_div(n as int, d as int),
{
    if d < 0 {
        floor_div_pos(-n, -d)
    } else {
        floor_div_pos(n, d)
    }
}

/// Round-to-nearest division (halves up) for any nonzero divisor. The
/// result is never larger in magnitude than the dividend.
pub fn round_div_exec(n: i128, d: i128) -> (q: i128)
    requires
        d != 0,
        -0x4000_0000_0000_0000_0000_0000_0000_0000 < 2 * n,
        2 * n < 0x4000_0000_0000_0000_0000_0000_0000_0000,
        -0x4000_0000_0000_0000_0000_0000_0000_0000 < 2 * d,
        2 * d < 0x4000_0000_0000_0000_0000_0000_0000_0000,
    ensures
        q == round_div(n as int, d as int),
        abs_of(q as int) <= abs_of(n as int),
{
    let nn: i128 = if d < 0 {
        -n
    } else {
        n
    };
    let dd: i128 = if d < 0 {
        -d
    } else {
        d
    };
    let q = floor_div_pos(2 * nn + dd, 2 * dd);
    proof {
        let a = abs_of(n as int);
        lemma_floor_div_bounds(2 * (nn as int) + dd as int, 2 * (dd as int));
        assert((2 * (dd as int)) * (q as int) <= 2 * (nn as int) + dd as int);
        assert((2 * (dd as int)) * (q as int) + 2 * (dd as int) > 2 * (nn as int) + dd as int);
        assert(-a <= q as int <= a) by (nonlinear_arith)
            requires
                (2 * (dd as int)) * (q as int) <= 2 * (nn as int) + dd as int,
                (2 * (dd as int)) * (q as int) + 2 * (dd as int) > 2 * (nn as int) + dd as int,
                1 <= dd as int,
                -a <= nn as int <= a,
                0 <= a,
        ;
    }
    q
}

} // verus!
