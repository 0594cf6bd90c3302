//! Saturating arithmetic on signed fixed-point values.
//!
//! Every operation is total. A result that would leave the range
//! `-i128::MAX ..= i128::MAX` is clipped to the nearer end, so that a
//! magnitude can always be taken.

use vstd::prelude::*;
use vstd::arithmetic::div_mod::*;
use crate::fixed::{magnitude, magnitude_of, SCALE};

verus! {

/// `x` clipped to `-i128::MAX ..= i128::MAX`.
pub open spec fn clip(x: int) -> i128 {
    if x > i128::MAX {
        i128::MAX
    } else if x < -i128::MAX {
        (-i128::MAX) as i128
    } else {
        x as i128
    }
}

/// Division that rounds toward zero, for a positive divisor.
pub open spec fn trunc_div(x: int, d: int) -> int {
    if x >= 0 {
        x / d
    } else {
        -((-x) / d)
    }
}

/// The product of two fixed-point values, as a fixed-point value.
pub open spec fn mul_fixed_spec(a: int, b: int) -> i128 {
    clip(trunc_div(a * b, SCALE as int))
}

/// A product of two values that are not negative is not negative.
pub proof fn lemma_mul_fixed_nonneg(a: int, b: int)
    requires
        a >= 0,
        b >= 0,
    ensures
        mul_fixed_spec(a, b) >= 0,
{
    assert(a * b >= 0) by (nonlinear_arith)
        requires
            a >= 0,
            b >= 0,
    ;
    lemma_div_pos_is_pos(a * b, SCALE as int);
}

/// Multiplying by a factor between zero and one keeps a value that is not
/// negative between zero and where it was.
pub proof fn lemma_mul_fixed_fraction(a: int, f: int)
    requires
        0 <= a <= i128::MAX,
        0 <= f <= SCALE,
    ensures
        0 <= mul_fixed_spec(a, f) <= a,
{
    let s = SCALE as int;
    assert(0 <= a * f <= a * s) by (nonlinear_arith)
        requires
            0 <= a,
            0 <= f <= s,
    ;
    lemma_div_pos_is_pos(a * f, s);
    lemma_div_is_ordered(a * f, a * s, s);
    lemma_div_multiples_vanish(a, s);
    assert(a * s == s * a) by (nonlinear_arith);
}

/// Gives a magnitude its sign and clips it.
pub fn with_sign(negative: bool, mag: u128) -> (r: i128)
    ensures
        r == clip(if negative { -(mag as int) } else { mag as int }),
{
    let capped: i128 = if mag > 170141183460469231731687303715884105727u128 {
        i128::MAX
    } else {
        mag as i128
    };
    if negative {
        -capped
    } else {
        capped
    }
}

/// `a + b`, clipped.
pub fn sat_add(a: i128, b: i128) -> (r: i128)
    ensures
        r == clip(a + b),
{
    match a.checked_add(b) {
        Some(x) => if x == i128::MIN {
            -i128::MAX
        } else {
            x
        },
        None => if a > 0 {
            i128::MAX
        } else {
            -i128::MAX
        },
    }
}

/// `|a|`, clipped.
pub fn sat_abs(a: i128) -> (r: i128)
    ensures
        r == clip(magnitude(a as int) as int),
        r >= 0,
{
    with_sign(false, magnitude_of(a))
}

/// `a / n` rounded toward zero, clipped.
pub fn div_count(a: i128, n: u64) -> (r: i128)
    requires
        n > 0,
    ensures
        r == clip(trunc_div(a as int, n as int)),
{
    let m = magnitude_of(a);
    let q = m / (n as u128);
    with_sign(a < 0, q)
}

/// `x * y / 10^8` on magnitudes, rounded down; `None` where the quotient
/// leaves `u128`.
pub fn mul_div_scale(x: u128, y: u128) -> (r: Option<u128>)
    ensures
        r == (if (x * y) / (SCALE as int) <= u128::MAX {
            Some(((x * y) / (SCALE as int)) as u128)
        } else {
            None::<u128>
        }),
{
    let s: u128 = 100_000_000;
    let xh = x / s;
    let xl = x % s;
    let yh = y / s;
    let yl = y % s;
    let ghost whole = xh * yh * s + xh * yl + xl * yh;
    let ghost rest = xl * yl;
    proof {
        lemma_fundamental_div_mod(x as int, s as int);
        lemma_fundamental_div_mod(y as int, s as int);
        assert(x * y == whole * s + rest) by (nonlinear_arith)
            requires
                x == s * xh + xl,
                y == s * yh + yl,
                whole == xh * yh * s + xh * yl + xl * yh,
                rest == xl * yl,
        ;
        assert(0 <= rest <= 10_000_000_000_000_000) by (nonlinear_arith)
            requires
                rest == xl * yl,
                0 <= xl < 100_000_000,
                0 <= yl < 100_000_000,
        ;
        lemma_hoist_over_denominator(rest, whole, s as nat);
        lemma_div_pos_is_pos(rest, s as int);
        assert((x * y) / (s as int) == whole + rest / (s as int));
        assert(xh * yl <= x && xl * yh <= y) by (nonlinear_arith)
            requires
                x == s * xh + xl,
                y == s * yh + yl,
                0 <= xl < s,
                0 <= yl < s,
                0 <= xh,
                0 <= yh,
        ;
        assert(xh * yh >= 0 && xh * yl >= 0 && xl * yh >= 0) by (nonlinear_arith)
            requires
                0 <= xh,
                0 <= yh,
                0 <= xl,
                0 <= yl,
        ;
    }
    let t4 = (xl * yl) / s;
    let t2 = xh * yl;
    let t3 = xl * yh;
    let hh = match xh.checked_mul(yh) {
        Some(v) => v,
        None => {
            proof {
                assert(xh * yh * s >= xh * yh) by (nonlinear_arith)
                    requires
                        xh * yh >= 0,
                        s >= 1,
                ;
            }
            return None;
        },
    };
    let t1 = match hh.checked_mul(s) {
        Some(v) => v,
        None => {
            return None;
        },
    };
    let a1 = match t1.checked_add(t2) {
        Some(v) => v,
        None => {
            return None;
        },
    };
    let a2 = match a1.checked_add(t3) {
        Some(v) => v,
        None => {
            return None;
        },
    };
    a2.checked_add(t4)
}

/// The product of two fixed-point values, rounded toward zero and clipped.
pub fn mul_fixed(a: i128, b: i128) -> (r: i128)
    ensures
        r == mul_fixed_spec(a as int, b as int),
{
    let ma = magnitude_of(a);
    let mb = magnitude_of(b);
    let negative = (a < 0) != (b < 0);
    proof {
        assert(ma * mb >= 0) by (nonlinear_arith)
            requires
                ma >= 0,
                mb >= 0,
        ;
        lemma_div_pos_is_pos(ma * mb, SCALE as int);
        if negative {
            assert(a * b == -(ma * mb) && a * b <= 0) by (nonlinear_arith)
                requires
                    (a < 0 && b >= 0 && ma == -a && mb == b) || (a >= 0 && b < 0 && ma == a && mb
                        == -b),
            ;
        } else {
            assert(a * b == ma * mb) by (nonlinear_arith)
                requires
                    (a < 0 && b < 0 && ma == -a && mb == -b) || (a >= 0 && b >= 0 && ma == a && mb
                        == b),
            ;
        }
    }
    match mul_div_scale(ma, mb) {
        Some(q) => with_sign(negative, q),
        None => if negative {
            -i128::MAX
        } else {
            i128::MAX
        },
    }
}

} // verus!
