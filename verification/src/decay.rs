//! The in-bar decay of a threshold: `exp(-k * sqrt(t))` in fixed point.
//!
//! The square root is exact to the last digit carried. The exponential is
//! one over the power series of `exp(x)`, whose terms are all positive, so
//! that the factor never grows with its argument; both are defined here
//! digit for digit, so that every process computes the same factor.

use vstd::prelude::*;
use vstd::arithmetic::div_mod::*;
use crate::fixed::SCALE;

verus! {

/// The scale at which the series of `exp(x)` is summed: 10^16.
pub const WIDE: u128 = 10_000_000_000_000_000;

/// The number of terms of the series after the first.
pub const EXP_TERMS: u64 = 80;

/// Where a term of the series is held. No term comes near it for an
/// argument below 19.
pub const TERM_CAP: u128 = 100_000_000_000_000_000_000_000_000;

/// The decay rate of the first 5000 ticks of a bar: 0.0001.
pub const DECAY_SLOW: u64 = 10_000;

/// The decay rate after the first 5000 ticks: 0.01.
pub const DECAY_FAST: u64 = 1_000_000;

/// The tick count at which the fast decay takes over.
pub const DECAY_KNEE: u64 = 5_000;

/// Whether `r` is the square root of `n`, rounded down.
pub open spec fn is_floor_sqrt(r: nat, n: nat) -> bool {
    r * r <= n < (r + 1) * (r + 1)
}

/// The square root of `n`, rounded down.
pub open spec fn floor_sqrt(n: nat) -> nat {
    choose|r: nat| is_floor_sqrt(r, n)
}

/// Only one number is the rounded-down square root of `n`.
pub proof fn lemma_floor_sqrt_unique(r: nat, n: nat)
    requires
        is_floor_sqrt(r, n),
    ensures
        floor_sqrt(n) == r,
{
    let s = floor_sqrt(n);
    assert(is_floor_sqrt(s, n));
    if s < r {
        assert((s + 1) * (s + 1) <= r * r) by (nonlinear_arith)
            requires
                0 <= s,
                s + 1 <= r,
        ;
    } else if r < s {
        assert((r + 1) * (r + 1) <= s * s) by (nonlinear_arith)
            requires
                0 <= r,
                r + 1 <= s,
        ;
    }
}

/// Every number has a rounded-down square root.
pub proof fn lemma_floor_sqrt_exists(n: nat)
    ensures
        is_floor_sqrt(floor_sqrt(n), n),
    decreases n,
{
    if n == 0 {
        assert(is_floor_sqrt(0, 0)) by (nonlinear_arith);
    } else {
        lemma_floor_sqrt_exists((n - 1) as nat);
        let r = floor_sqrt((n - 1) as nat);
        if n < (r + 1) * (r + 1) {
            assert(is_floor_sqrt(r, n));
        } else {
            assert((r + 1) * (r + 1) < (r + 2) * (r + 2)) by (nonlinear_arith)
                requires
                    r >= 0,
            ;
            assert(is_floor_sqrt(r + 1, n));
        }
    }
}

/// The rounded-down square root never shrinks as its argument grows.
pub proof fn lemma_floor_sqrt_grows(a: nat, b: nat)
    requires
        a <= b,
    ensures
        floor_sqrt(a) <= floor_sqrt(b),
{
    lemma_floor_sqrt_exists(a);
    lemma_floor_sqrt_exists(b);
    let ra = floor_sqrt(a);
    let rb = floor_sqrt(b);
    if ra > rb {
        assert((rb + 1) * (rb + 1) <= ra * ra) by (nonlinear_arith)
            requires
                0 <= rb,
                rb + 1 <= ra,
        ;
    }
}

/// The square root of `n`, rounded down.
pub fn isqrt(n: u128) -> (r: u128)
    ensures
        r == floor_sqrt(n as nat),
        is_floor_sqrt(r as nat, n as nat),
        r < 0x1_0000_0000_0000_0000,
{
    let mut lo: u128 = 0;
    let mut hi: u128 = 0x1_0000_0000_0000_0000;
    assert(hi * hi > n) by (nonlinear_arith)
        requires
            hi == 0x1_0000_0000_0000_0000,
            n <= u128::MAX,
    ;
    assert(lo * lo <= n) by (nonlinear_arith)
        requires
            lo == 0,
            n >= 0,
    ;
    while hi - lo > 1
        invariant
            lo < hi <= 0x1_0000_0000_0000_0000,
            lo * lo <= n < hi * hi,
        decreases hi - lo,
    {
        let mid = lo + (hi - lo) / 2;
        assert(mid * mid <= u128::MAX) by (nonlinear_arith)
            requires
                0 <= mid < 0x1_0000_0000_0000_0000,
        ;
        if mid * mid <= n {
            lo = mid;
        } else {
            hi = mid;
        }
    }
    proof {
        assert(hi == lo + 1);
        lemma_floor_sqrt_unique(lo as nat, n as nat);
    }
    lo
}

/// The square root of the whole number `t`, as a fixed-point value.
pub open spec fn sqrt_fixed_spec(t: u64) -> nat {
    floor_sqrt((t * 10_000_000_000_000_000) as nat)
}

/// The square root of the whole number `t`, as a fixed-point value rounded
/// down.
pub fn sqrt_fixed(t: u64) -> (r: u64)
    ensures
        r == sqrt_fixed_spec(t),
{
    let wide: u128 = (t as u128) * 10_000_000_000_000_000u128;
    let r = isqrt(wide);
    r as u64
}

/// `v` held at `TERM_CAP`.
pub open spec fn capped_term(v: int) -> int {
    if v > TERM_CAP {
        TERM_CAP as int
    } else {
        v
    }
}

/// The term `x^k / k!` of the series of `exp(x)` for a fixed-point `x`, at
/// the scale `WIDE`, each quotient rounded down.
pub open spec fn exp_term(x: int, k: nat) -> int
    decreases k,
{
    if k == 0 {
        WIDE as int
    } else {
        capped_term((exp_term(x, (k - 1) as nat) * x) / (k * SCALE))
    }
}

/// The series of `exp(x)` up to the term `n`.
pub open spec fn exp_sum(x: int, n: nat) -> int
    decreases n,
{
    if n == 0 {
        exp_term(x, 0)
    } else {
        exp_sum(x, (n - 1) as nat) + exp_term(x, n)
    }
}

/// `exp(-x)` for a fixed-point `x`, as this library computes it: one over
/// the series of `exp(x)`, rounded down, and zero from 19 on, where the
/// true value is below the last digit carried.
pub open spec fn exp_neg_spec(x: u64) -> int {
    if x / SCALE > 18 {
        0
    } else {
        (SCALE * WIDE) / exp_sum(x as int, EXP_TERMS as nat)
    }
}

/// A term of the series grows with the argument, and lies between zero and
/// the cap.
pub proof fn lemma_exp_term_grows(x: int, y: int, k: nat)
    requires
        0 <= x <= y,
    ensures
        0 <= exp_term(x, k) <= exp_term(y, k) <= TERM_CAP,
    decreases k,
{
    if k > 0 {
        lemma_exp_term_grows(x, y, (k - 1) as nat);
        let a = exp_term(x, (k - 1) as nat);
        let b = exp_term(y, (k - 1) as nat);
        let d = (k * SCALE) as int;
        assert(0 <= a * x <= b * y) by (nonlinear_arith)
            requires
                0 <= a <= b,
                0 <= x <= y,
        ;
        assert(d > 0) by (nonlinear_arith)
            requires
                k >= 1,
                d == k * SCALE,
                SCALE == 100_000_000,
        ;
        lemma_div_pos_is_pos(a * x, d);
        lemma_div_is_ordered(a * x, b * y, d);
    }
}

/// The series grows with the argument, and is at least one.
pub proof fn lemma_exp_sum_grows(x: int, y: int, n: nat)
    requires
        0 <= x <= y,
    ensures
        WIDE <= exp_sum(x, n) <= exp_sum(y, n) <= (n + 1) * TERM_CAP,
    decreases n,
{
    lemma_exp_term_grows(x, y, n);
    if n > 0 {
        lemma_exp_sum_grows(x, y, (n - 1) as nat);
        assert((n - 1 + 1) * TERM_CAP + TERM_CAP == (n + 1) * TERM_CAP) by (nonlinear_arith);
    }
}

/// At zero every term after the first is zero, and the series is one.
pub proof fn lemma_exp_sum_at_zero(n: nat)
    ensures
        exp_sum(0, n) == WIDE,
        n > 0 ==> exp_term(0, n) == 0,
    decreases n,
{
    if n > 0 {
        lemma_exp_sum_at_zero((n - 1) as nat);
        assert(exp_term(0, (n - 1) as nat) * 0 == 0);
        assert(0int / ((n * SCALE) as int) == 0) by {
            assert(n * SCALE > 0) by (nonlinear_arith)
                requires
                    n >= 1,
                    SCALE == 100_000_000,
            ;
            lemma_div_pos_is_pos(0, (n * SCALE) as int);
            lemma_div_is_ordered_by_denominator(0, 1, (n * SCALE) as int);
        }
    }
}

/// The factor never exceeds one and never falls below zero; at zero it is
/// one.
pub proof fn lemma_exp_neg_bounds(x: u64)
    ensures
        0 <= exp_neg_spec(x) <= SCALE,
        x == 0 ==> exp_neg_spec(x) == SCALE,
{
    let top = (SCALE * WIDE) as int;
    if x / SCALE <= 18 {
        lemma_exp_sum_grows(x as int, x as int, EXP_TERMS as nat);
        let sum = exp_sum(x as int, EXP_TERMS as nat);
        lemma_div_pos_is_pos(top, sum);
        lemma_div_is_ordered_by_denominator(top, WIDE as int, sum);
        lemma_div_multiples_vanish(SCALE as int, WIDE as int);
        assert(WIDE * SCALE == SCALE * WIDE) by (nonlinear_arith);
    }
    if x == 0 {
        lemma_exp_sum_at_zero(EXP_TERMS as nat);
        lemma_div_multiples_vanish(SCALE as int, WIDE as int);
        assert(WIDE * SCALE == SCALE * WIDE) by (nonlinear_arith);
    }
}

/// The factor never grows with its argument.
pub proof fn lemma_exp_neg_never_grows(x: u64, y: u64)
    requires
        x <= y,
    ensures
        exp_neg_spec(y) <= exp_neg_spec(x),
{
    lemma_exp_neg_bounds(x);
    lemma_div_is_ordered(x as int, y as int, SCALE as int);
    if y / SCALE <= 18 {
        lemma_exp_sum_grows(x as int, y as int, EXP_TERMS as nat);
        lemma_div_is_ordered_by_denominator(
            (SCALE * WIDE) as int,
            exp_sum(x as int, EXP_TERMS as nat),
            exp_sum(y as int, EXP_TERMS as nat),
        );
    }
}

/// `exp(-x)` in fixed point.
pub fn exp_neg(x: u64) -> (r: u64)
    ensures
        r == exp_neg_spec(x),
        r <= SCALE,
{
    proof {
        lemma_exp_neg_bounds(x);
    }
    if x / SCALE > 18 {
        return 0;
    }
    let mut term: u128 = WIDE;
    let mut sum: u128 = WIDE;
    let mut k: u64 = 0;
    while k < EXP_TERMS
        invariant
            0 <= k <= EXP_TERMS,
            x < 1_900_000_000,
            term == exp_term(x as int, k as nat),
            sum == exp_sum(x as int, k as nat),
            term <= TERM_CAP,
            WIDE <= sum <= (k + 1) * TERM_CAP,
        decreases EXP_TERMS - k,
    {
        k = k + 1;
        proof {
            lemma_exp_sum_grows(x as int, x as int, k as nat);
        }
        assert(term * x <= u128::MAX && k * SCALE <= u64::MAX && k * SCALE > 0) by (nonlinear_arith)
            requires
                0 <= term <= TERM_CAP,
                0 <= x < 1_900_000_000,
                1 <= k <= 80,
                SCALE == 100_000_000,
                TERM_CAP == 100_000_000_000_000_000_000_000_000,
        ;
        let next = (term * (x as u128)) / ((k as u128) * (SCALE as u128));
        term = if next > TERM_CAP {
            TERM_CAP
        } else {
            next
        };
        assert((k + 1) * TERM_CAP <= u128::MAX) by (nonlinear_arith)
            requires
                1 <= k <= 80,
                TERM_CAP == 100_000_000_000_000_000_000_000_000,
        ;
        sum = sum + term;
    }
    let r = ((SCALE as u128) * WIDE) / sum;
    r as u64
}

/// The factor by which a bar of `t` ticks scales its threshold on a tick:
/// `exp(-0.0001 * sqrt(t))` up to 5000 ticks, `exp(-0.01 * sqrt(t - 5000))`
/// after that.
pub open spec fn decay_factor_spec(t: u64) -> int {
    exp_neg_spec(decay_argument(t))
}

/// The argument of the exponential for a bar of `t` ticks: the rate of the
/// stretch that `t` lies in, times the square root of the ticks counted in
/// that stretch.
pub open spec fn decay_argument(t: u64) -> u64 {
    if t <= DECAY_KNEE {
        ((DECAY_SLOW * sqrt_fixed_spec(t)) / (SCALE as int)) as u64
    } else {
        ((DECAY_FAST * sqrt_fixed_spec((t - DECAY_KNEE) as u64)) / (SCALE as int)) as u64
    }
}

/// The argument of the exponential never shrinks as ticks are counted,
/// across the change of rate too.
pub proof fn lemma_decay_argument_grows(t1: u64, t2: u64)
    requires
        t1 <= t2,
    ensures
        decay_argument(t1) <= decay_argument(t2),
{
    let unit: nat = 10_000_000_000_000_000;
    let s = SCALE as int;
    lemma_floor_sqrt_exists((t1 * unit) as nat);
    lemma_floor_sqrt_exists((t2 * unit) as nat);
    if t2 <= DECAY_KNEE {
        let r1 = sqrt_fixed_spec(t1);
        let r2 = sqrt_fixed_spec(t2);
        assert(t1 * unit <= t2 * unit) by (nonlinear_arith)
            requires
                t1 <= t2,
                unit >= 0,
        ;
        lemma_floor_sqrt_grows((t1 * unit) as nat, (t2 * unit) as nat);
        lemma_root_is_small(t2);
        lemma_root_is_small(t1);
        assert(0 <= DECAY_SLOW * r1 <= DECAY_SLOW * r2) by (nonlinear_arith)
            requires
                0 <= r1 <= r2,
                DECAY_SLOW == 10_000,
        ;
        lemma_div_is_ordered(DECAY_SLOW * r1, DECAY_SLOW * r2, s);
        lemma_argument_fits(DECAY_SLOW as int, r1 as int);
        lemma_argument_fits(DECAY_SLOW as int, r2 as int);
    } else if t1 > DECAY_KNEE {
        let u1 = (t1 - DECAY_KNEE) as u64;
        let u2 = (t2 - DECAY_KNEE) as u64;
        let r1 = sqrt_fixed_spec(u1);
        let r2 = sqrt_fixed_spec(u2);
        assert(u1 * unit <= u2 * unit) by (nonlinear_arith)
            requires
                u1 <= u2,
                unit >= 0,
        ;
        lemma_floor_sqrt_grows((u1 * unit) as nat, (u2 * unit) as nat);
        lemma_root_is_small(u1);
        lemma_root_is_small(u2);
        assert(0 <= DECAY_FAST * r1 <= DECAY_FAST * r2) by (nonlinear_arith)
            requires
                0 <= r1 <= r2,
                DECAY_FAST == 1_000_000,
        ;
        lemma_div_is_ordered(DECAY_FAST * r1, DECAY_FAST * r2, s);
        lemma_argument_fits(DECAY_FAST as int, r1 as int);
        lemma_argument_fits(DECAY_FAST as int, r2 as int);
    } else {
        // before the change of rate the argument stays below 0.0071, after it
        // the argument is at least 0.01
        let u2 = (t2 - DECAY_KNEE) as u64;
        let r1 = sqrt_fixed_spec(t1);
        let r2 = sqrt_fixed_spec(u2);
        assert(t1 * unit <= 5_000 * unit) by (nonlinear_arith)
            requires
                t1 <= 5_000,
                unit >= 0,
        ;
        lemma_floor_sqrt_grows((t1 * unit) as nat, (5_000 * unit) as nat);
        lemma_floor_sqrt_exists((5_000 * unit) as nat);
        let top = floor_sqrt((5_000 * unit) as nat);
        if top > 7_100_000_000 {
            assert(top * top > 5_000 * unit) by (nonlinear_arith)
                requires
                    top >= 7_100_000_001,
                    unit == 10_000_000_000_000_000,
            ;
        }
        assert(unit <= u2 * unit) by (nonlinear_arith)
            requires
                u2 >= 1,
                unit >= 0,
        ;
        assert(is_floor_sqrt(100_000_000, unit)) by (nonlinear_arith)
            requires
                unit == 10_000_000_000_000_000,
        ;
        lemma_floor_sqrt_unique(100_000_000, unit);
        lemma_floor_sqrt_grows(unit, (u2 * unit) as nat);
        lemma_root_is_small(t1);
        lemma_root_is_small(u2);
        assert(0 <= DECAY_SLOW * r1 <= 71_000_000_000_000) by (nonlinear_arith)
            requires
                0 <= r1 <= 7_100_000_000,
                DECAY_SLOW == 10_000,
        ;
        assert(DECAY_FAST * r2 >= 100_000_000_000_000) by (nonlinear_arith)
            requires
                r2 >= 100_000_000,
                DECAY_FAST == 1_000_000,
        ;
        lemma_div_is_ordered(DECAY_SLOW * r1, 71_000_000_000_000, s);
        lemma_div_is_ordered(100_000_000_000_000, DECAY_FAST * r2, s);
        assert(71_000_000_000_000int / 100_000_000 == 710_000);
        assert(100_000_000_000_000int / 100_000_000 == 1_000_000);
        lemma_argument_fits(DECAY_SLOW as int, r1 as int);
        lemma_argument_fits(DECAY_FAST as int, r2 as int);
    }
}

/// The fixed-point square root of a tick count fits 64 bits.
pub proof fn lemma_root_is_small(t: u64)
    ensures
        sqrt_fixed_spec(t) < 0x1_0000_0000_0000_0000,
{
    let n = (t * 10_000_000_000_000_000) as nat;
    lemma_floor_sqrt_exists(n);
    let r = floor_sqrt(n);
    if r >= 0x1_0000_0000_0000_0000 {
        assert(r * r > n) by (nonlinear_arith)
            requires
                r >= 0x1_0000_0000_0000_0000,
                n == t * 10_000_000_000_000_000,
                t <= u64::MAX,
        ;
    }
}

/// A rate of at most 0.01 times a root that fits 64 bits, as a fixed-point
/// product, fits 64 bits.
pub proof fn lemma_argument_fits(rate: int, root: int)
    requires
        0 <= rate <= 1_000_000,
        0 <= root < 0x1_0000_0000_0000_0000,
    ensures
        0 <= (rate * root) / (SCALE as int) <= u64::MAX,
{
    assert(0 <= rate * root <= 1_000_000 * u64::MAX) by (nonlinear_arith)
        requires
            0 <= rate <= 1_000_000,
            0 <= root <= u64::MAX,
    ;
    lemma_div_pos_is_pos(rate * root, SCALE as int);
    lemma_div_is_ordered(rate * root, 1_000_000 * u64::MAX, SCALE as int);
}

/// The decay factor never grows as a bar counts ticks: a bar's live
/// threshold is highest on its first tick.
pub proof fn lemma_decay_never_grows(t1: u64, t2: u64)
    requires
        t1 <= t2,
    ensures
        decay_factor_spec(t2) <= decay_factor_spec(t1),
{
    lemma_decay_argument_grows(t1, t2);
    lemma_exp_neg_never_grows(decay_argument(t1), decay_argument(t2));
}

/// The decay factor of a bar of `t` ticks, between zero and one.
pub fn decay_factor(t: u64) -> (r: u64)
    ensures
        r == decay_factor_spec(t),
        r <= SCALE,
{
    let (rate, ticks) = if t <= DECAY_KNEE {
        (DECAY_SLOW, t)
    } else {
        (DECAY_FAST, t - DECAY_KNEE)
    };
    let root = sqrt_fixed(ticks);
    assert(rate * root <= u128::MAX) by (nonlinear_arith)
        requires
            0 <= rate <= 1_000_000,
            0 <= root <= u64::MAX,
    ;
    let wide: u128 = (rate as u128) * (root as u128);
    let x = wide / (SCALE as u128);
    assert(x <= u64::MAX) by {
        assert(wide <= 1_000_000 * u64::MAX) by (nonlinear_arith)
            requires
                wide == rate * root,
                0 <= rate <= 1_000_000,
                0 <= root <= u64::MAX,
        ;
        lemma_div_is_ordered(wide as int, 1_000_000 * u64::MAX, SCALE as int);
    }
    exp_neg(x as u64)
}

} // verus!
