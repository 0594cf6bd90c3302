//! Fixed-point decimals: integers that count units of 10^-8.

use vstd::prelude::*;
use vstd::arithmetic::div_mod::*;

verus! {

/// The fixed-point representation of 1.
pub const SCALE: u64 = 100_000_000;

/// 10 to the power `n`.
pub open spec fn pow10(n: nat) -> nat
    decreases n,
{
    if n == 0 {
        1
    } else {
        10 * pow10((n - 1) as nat)
    }
}

/// The magnitude of `x`.
pub open spec fn magnitude(x: int) -> nat {
    if x < 0 {
        (-x) as nat
    } else {
        x as nat
    }
}

/// The decimal `m / 10^e` counted in units of 10^-8, where that count is a
/// whole number; `None` where the decimal has more than eight significant
/// fractional digits.
pub open spec fn units_of(m: int, e: nat) -> Option<int> {
    let a = magnitude(m);
    if (a * pow10(8)) % pow10(e) == 0 {
        let q = ((a * pow10(8)) / pow10(e)) as int;
        Some(if m < 0 { -q } else { q })
    } else {
        None
    }
}

/// Every power of ten is at least one.
pub proof fn lemma_pow10_positive(n: nat)
    ensures
        pow10(n) >= 1,
    decreases n,
{
    if n > 0 {
        lemma_pow10_positive((n - 1) as nat);
    }
}

/// Exponents add where powers multiply.
pub proof fn lemma_pow10_add(a: nat, b: nat)
    ensures
        pow10(a + b) == pow10(a) * pow10(b),
    decreases a,
{
    if a == 0 {
        assert(pow10(0) == 1);
    } else {
        lemma_pow10_add((a - 1) as nat, b);
        assert(pow10(a + b) == 10 * pow10((a - 1 + b) as nat));
        assert(10 * (pow10((a - 1) as nat) * pow10(b)) == (10 * pow10((a - 1) as nat)) * pow10(b))
            by (nonlinear_arith);
    }
}

/// The powers of ten up to the eighth.
pub proof fn lemma_pow10_values()
    ensures
        pow10(0) == 1,
        pow10(1) == 10,
        pow10(2) == 100,
        pow10(3) == 1_000,
        pow10(4) == 10_000,
        pow10(5) == 100_000,
        pow10(6) == 1_000_000,
        pow10(7) == 10_000_000,
        pow10(8) == 100_000_000,
{
    reveal_with_fuel(pow10, 10);
}

/// 10^n for an exponent of at most eight.
fn pow10_small(n: u32) -> (r: u64)
    requires
        n <= 8,
    ensures
        r == pow10(n as nat),
{
    proof {
        lemma_pow10_values();
    }
    let mut r: u64 = 1;
    let mut i: u32 = 0;
    while i < n
        invariant
            i <= n <= 8,
            r == pow10(i as nat),
            r <= 100_000_000,
            pow10(8) == 100_000_000,
        decreases n - i,
    {
        proof {
            lemma_pow10_add((8 - i - 1) as nat, (i + 1) as nat);
            lemma_pow10_positive((8 - i - 1) as nat);
            assert(pow10((i + 1) as nat) <= pow10(8)) by (nonlinear_arith)
                requires
                    pow10(8) == pow10((8 - i - 1) as nat) * pow10((i + 1) as nat),
                    pow10((8 - i - 1) as nat) >= 1,
            ;
        }
        r = r * 10;
        i = i + 1;
    }
    r
}

/// A product with no remainder: `x == q * d` gives `x / d == q`.
pub proof fn lemma_exact_division(x: int, q: int, d: int)
    requires
        d > 0,
        x == q * d,
    ensures
        x % d == 0,
        x / d == q,
{
    lemma_fundamental_div_mod_converse(x, d, q, 0);
}

/// The count that `units_of` gives is exact: taken back to the decimal's
/// own scale it is the mantissa again, with nothing rounded away.
pub proof fn lemma_units_are_exact(m: int, e: nat)
    ensures
        units_of(m, e) matches Some(u) ==> u * pow10(e) == m * pow10(8),
{
    let a = magnitude(m) as int;
    let p = pow10(e) as int;
    let s = pow10(8) as int;
    lemma_pow10_positive(e);
    if (a * s) % p == 0 {
        let q = (a * s) / p;
        lemma_fundamental_div_mod(a * s, p);
        assert(q * p == a * s) by (nonlinear_arith)
            requires
                a * s == p * q + 0,
        ;
        if m < 0 {
            assert((-q) * p == m * s) by (nonlinear_arith)
                requires
                    q * p == a * s,
                    a == -m,
            ;
        }
    }
}

/// A number whose last digit is not zero is no multiple of a higher power
/// of ten, whatever it is then multiplied by on both sides.
proof fn lemma_last_digit_blocks(a: int, cur: int, done: nat, e: nat)
    requires
        e > 8,
        done < e - 8,
        cur >= 0,
        cur % 10 != 0,
        a == cur * pow10(done),
    ensures
        (a * pow10(8)) % (pow10(e) as int) != 0,
{
    let p = pow10(e) as int;
    let s = pow10(8) as int;
    let d = pow10(done) as int;
    let rest = (e - 8 - done - 1) as nat;
    let r = pow10(rest) as int;
    lemma_pow10_positive(e);
    lemma_pow10_positive(8);
    lemma_pow10_positive(done);
    lemma_pow10_positive(rest);
    lemma_pow10_add(done, (e - done) as nat);
    lemma_pow10_add(1, (e - done - 1) as nat);
    lemma_pow10_add(rest, 8);
    lemma_pow10_values();
    assert(p == d * (10 * (r * s)));
    if (a * s) % p == 0 {
        let t = (a * s) / p;
        lemma_fundamental_div_mod(a * s, p);
        assert(a * s == p * t);
        assert(cur == 10 * (t * r)) by (nonlinear_arith)
            requires
                a * s == p * t,
                a == cur * d,
                p == d * (10 * (r * s)),
                d >= 1,
                s >= 1,
        ;
        lemma_exact_division(cur, t * r, 10);
    }
}

/// The magnitude of `m`.
pub fn magnitude_of(m: i128) -> (r: u128)
    ensures
        r == magnitude(m as int),
{
    if m >= 0 {
        m as u128
    } else if m == i128::MIN {
        170141183460469231731687303715884105728u128
    } else {
        (-m) as u128
    }
}

/// What `units_of` gives, where that fits an `i128`.
pub open spec fn units_i128(m: int, e: nat) -> Option<i128> {
    match units_of(m, e) {
        Some(u) => if i128::MIN <= u <= i128::MAX {
            Some(u as i128)
        } else {
            None
        },
        None => None,
    }
}

/// Converts the decimal `m / 10^e` to units of 10^-8 without rounding:
/// `None` where the decimal is finer than 10^-8 or the count leaves `i128`.
pub fn to_units(m: i128, e: u32) -> (r: Option<i128>)
    ensures
        r == units_i128(m as int, e as nat),
{
    let a = magnitude_of(m);
    let q: u128;
    proof {
        lemma_pow10_positive(e as nat);
        lemma_pow10_values();
    }
    if e <= 8 {
        let f = pow10_small(8 - e);
        proof {
            lemma_pow10_add((8 - e) as nat, e as nat);
            assert(a * pow10(8) == (a * f) * pow10(e as nat)) by (nonlinear_arith)
                requires
                    pow10(8) == f * pow10(e as nat),
            ;
            lemma_exact_division(a * pow10(8), a * f, pow10(e as nat) as int);
        }
        match a.checked_mul(f as u128) {
            Some(p) => {
                q = p;
            },
            None => {
                return None;
            },
        }
    } else if a == 0 {
        proof {
            assert(a * pow10(8) == 0 * pow10(e as nat)) by (nonlinear_arith)
                requires
                    a == 0,
            ;
            lemma_exact_division(a * pow10(8), 0, pow10(e as nat) as int);
        }
        q = 0;
    } else {
        let mut cur = a;
        let mut k: u32 = e - 8;
        proof {
            assert(cur * pow10(0) == a) by (nonlinear_arith)
                requires
                    cur == a,
                    pow10(0) == 1,
            ;
        }
        while k > 0
            invariant
                e > 8,
                k <= e - 8,
                a == magnitude(m as int),
                a == cur * pow10((e - 8 - k) as nat),
            decreases k,
        {
            if cur % 10 != 0 {
                proof {
                    lemma_last_digit_blocks(a as int, cur as int, (e - 8 - k) as nat, e as nat);
                }
                return None;
            }
            proof {
                let done = (e - 8 - k) as nat;
                lemma_pow10_add(1, done);
                lemma_fundamental_div_mod(cur as int, 10);
                assert(a == (cur / 10) * pow10(done + 1)) by (nonlinear_arith)
                    requires
                        a == cur * pow10(done),
                        cur == 10 * (cur / 10),
                        pow10(done + 1) == 10 * pow10(done),
                ;
            }
            cur = cur / 10;
            k = k - 1;
        }
        proof {
            let kk = (e - 8) as nat;
            lemma_pow10_add(kk, 8);
            assert(a * pow10(8) == cur * pow10(e as nat)) by (nonlinear_arith)
                requires
                    a == cur * pow10(kk),
                    pow10(e as nat) == pow10(kk) * pow10(8),
            ;
            lemma_exact_division(a * pow10(8), cur as int, pow10(e as nat) as int);
        }
        q = cur;
    }
    if m < 0 {
        if q <= 170141183460469231731687303715884105727u128 {
            Some(-(q as i128))
        } else if q == 170141183460469231731687303715884105728u128 {
            Some(i128::MIN)
        } else {
            None
        }
    } else if q <= 170141183460469231731687303715884105727u128 {
        Some(q as i128)
    } else {
        None
    }
}

/// What `rust_decimal::Decimal::from_str` makes of a string: the mantissa
/// and the scale of the decimal it reads, or `None` where it rejects the
/// string.
pub uninterp spec fn decimal_from_str(s: Seq<char>) -> Option<(i128, u32)>;

/// Reads a decimal with `rust_decimal::Decimal::from_str` and hands back its
/// mantissa and scale. Nothing is claimed of the grammar or of the rounding:
/// the result is only given its name.
#[verifier::external_body]
fn parse_decimal(s: &str) -> (r: Option<(i128, u32)>)
    ensures
        r == decimal_from_str(s@),
{
    let parsed: Result<rust_decimal::Decimal, rust_decimal::Error> = std::str::FromStr::from_str(s);
    match parsed {
        Ok(d) => Some((d.mantissa(), d.scale())),
        Err(_) => None,
    }
}

/// The value of a decimal digit; `None` for any other character.
pub open spec fn digit_of(c: char) -> Option<int> {
    if '0' <= c <= '9' {
        Some(c as u32 - 48)
    } else {
        None
    }
}

/// The number that a run of decimal digits writes; zero for the empty
/// run, `None` where a character is no digit.
pub open spec fn digits_value(s: Seq<char>) -> Option<int>
    decreases s.len(),
{
    if s.len() == 0 {
        Some(0)
    } else {
        match (digits_value(s.drop_last()), digit_of(s.last())) {
            (Some(v), Some(d)) => Some(10 * v + d),
            _ => None,
        }
    }
}

/// The whole number that a text writes: an optional plus sign, then one
/// decimal digit or more, with a value that fits a `u64`. Anything else,
/// the empty text and a lone sign included, writes none.
pub open spec fn whole_of(s: Seq<char>) -> Option<u64> {
    let body = if s.len() > 0 && s[0] == '+' {
        s.subrange(1, s.len() as int)
    } else {
        s
    };
    if body.len() == 0 {
        None
    } else {
        match digits_value(body) {
            Some(v) => if v <= u64::MAX {
                Some(v as u64)
            } else {
                None
            },
            None => None,
        }
    }
}

/// A run of digits is worth at least as much as each run that it starts
/// with, and is no run of digits where one of those is none.
pub proof fn lemma_digits_value_grows(s: Seq<char>, k: int)
    requires
        0 <= k <= s.len(),
    ensures
        digits_value(s.take(k)) is None ==> digits_value(s) is None,
        digits_value(s) matches Some(v) ==> digits_value(s.take(k)) matches Some(p) && 0 <= p
            <= v,
    decreases s.len() - k,
{
    if k < s.len() {
        lemma_digits_value_grows(s, k + 1);
        assert(s.take(k + 1).drop_last() =~= s.take(k));
        lemma_digits_value_nonneg(s.take(k));
    } else {
        assert(s.take(k) =~= s);
        lemma_digits_value_nonneg(s);
    }
}

/// A run of digits is worth zero or more.
pub proof fn lemma_digits_value_nonneg(s: Seq<char>)
    ensures
        digits_value(s) matches Some(v) ==> v >= 0,
    decreases s.len(),
{
    if s.len() > 0 {
        lemma_digits_value_nonneg(s.drop_last());
    }
}

/// Every character of a run of digits is a digit.
pub proof fn lemma_digits_are_digits(s: Seq<char>)
    requires
        digits_value(s) is Some,
    ensures
        forall|i: int| 0 <= i < s.len() ==> digit_of(#[trigger] s[i]) is Some,
    decreases s.len(),
{
    if s.len() > 0 {
        lemma_digits_are_digits(s.drop_last());
        assert forall|i: int| 0 <= i < s.len() implies digit_of(#[trigger] s[i]) is Some by {
            if i < s.len() - 1 {
                assert(s.drop_last()[i] == s[i]);
            }
        }
    }
}

/// Reads a whole number from its decimal text.
pub fn parse_whole(s: &str) -> (r: Option<u64>)
    ensures
        r == whole_of(s@),
{
    if !s.is_ascii() {
        proof {
            if whole_of(s@) is Some {
                let signed = s@.len() > 0 && s@[0] == '+';
                let body = if signed {
                    s@.subrange(1, s@.len() as int)
                } else {
                    s@
                };
                lemma_digits_are_digits(body);
                assert forall|i: int| 0 <= i < s@.len() implies '\0' <= #[trigger] s@[i]
                    <= '\u{7f}' by {
                    if signed {
                        if i > 0 {
                            assert(body[i - 1] == s@[i]);
                        }
                    } else {
                        assert(body[i] == s@[i]);
                    }
                }
            }
        }
        return None;
    }
    let n = s.unicode_len();
    let start: usize = if n > 0 && s.get_ascii(0) == 43 {
        1
    } else {
        0
    };
    if start == n {
        return None;
    }
    let ghost body = s@.subrange(start as int, n as int);
    let mut value: u64 = 0;
    let mut i: usize = start;
    proof {
        assert(body.take(0) =~= Seq::empty());
        if start == 0 {
            assert(body =~= s@);
        }
    }
    while i < n
        invariant
            start <= i <= n,
            start < n,
            n == s@.len(),
            s.is_ascii(),
            body.len() == n - start,
            forall|j: int| 0 <= j < body.len() ==> body[j] == s@[start + j],
            whole_of(s@) == (match digits_value(body) {
                Some(v) => if v <= u64::MAX {
                    Some(v as u64)
                } else {
                    None
                },
                None => None::<u64>,
            }),
            digits_value(body.take(i - start)) == Some(value as int),
        decreases n - i,
    {
        let code = s.get_ascii(i);
        proof {
            assert('\0' <= s@[i as int] <= '\u{7f}');
            assert(body.take(i - start + 1).drop_last() =~= body.take(i - start));
            assert(body.take(i - start + 1).last() == s@[i as int]);
            lemma_digits_value_grows(body, i - start + 1);
        }
        if code < 48 || code > 57 {
            return None;
        }
        let digit = (code - 48) as u64;
        let next = match value.checked_mul(10) {
            Some(v) => v.checked_add(digit),
            None => None,
        };
        match next {
            Some(v) => {
                value = v;
            },
            None => {
                return None;
            },
        }
        i = i + 1;
    }
    assert(body.take(n - start) =~= body);
    Some(value)
}

/// The non-negative amount, in units of 10^-8, that a parsed decimal stands
/// for: `None` where nothing was parsed, where the decimal is negative, finer
/// than 10^-8, or too large for a `u64`.
pub open spec fn amount_of(parsed: Option<(i128, u32)>) -> Option<u64> {
    match parsed {
        Some((m, e)) => match units_of(m as int, e as nat) {
            Some(u) => if 0 <= u <= u64::MAX {
                Some(u as u64)
            } else {
                None
            },
            None => None,
        },
        None => None,
    }
}

/// The signed amount, in units of 10^-8, that a parsed decimal stands for.
pub open spec fn signed_amount_of(parsed: Option<(i128, u32)>) -> Option<i64> {
    match parsed {
        Some((m, e)) => match units_of(m as int, e as nat) {
            Some(u) => if i64::MIN <= u <= i64::MAX {
                Some(u as i64)
            } else {
                None
            },
            None => None,
        },
        None => None,
    }
}

/// Turns a parsed decimal into a price or a size.
pub fn amount_from_decimal(parsed: Option<(i128, u32)>) -> (r: Option<u64>)
    ensures
        r == amount_of(parsed),
{
    match parsed {
        Some((m, e)) => match to_units(m, e) {
            Some(u) => if 0 <= u && u <= 18446744073709551615i128 {
                Some(u as u64)
            } else {
                None
            },
            None => None,
        },
        None => None,
    }
}

/// Turns a parsed decimal into a signed rate.
pub fn signed_amount_from_decimal(parsed: Option<(i128, u32)>) -> (r: Option<i64>)
    ensures
        r == signed_amount_of(parsed),
{
    match parsed {
        Some((m, e)) => match to_units(m, e) {
            Some(u) => if -9223372036854775808i128 <= u && u <= 9223372036854775807i128 {
                Some(u as i64)
            } else {
                None
            },
            None => None,
        },
        None => None,
    }
}

/// Reads a price or a size from its decimal text.
pub fn parse_amount(s: &str) -> (r: Option<u64>)
    ensures
        r == amount_of(decimal_from_str(s@)),
{
    amount_from_decimal(parse_decimal(s))
}

/// Reads a signed rate from its decimal text.
pub fn parse_signed_amount(s: &str) -> (r: Option<i64>)
    ensures
        r == signed_amount_of(decimal_from_str(s@)),
{
    signed_amount_from_decimal(parse_decimal(s))
}

} // verus!
