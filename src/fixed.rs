//! Fixed-point amounts.
//!
//! Prices, volumes, profits and percentages are held as `i64` counts of
//! 10^-8 of a whole unit, so that sums and comparisons are exact.
use vstd::prelude::*;

verus! {

/// Units in one whole: an amount `x` stands for `x / SCALE`.
pub const SCALE: i64 = 100_000_000;

/// Largest magnitude of an amount, in units (one billion wholes).
pub const AMOUNT_LIMIT: i64 = 100_000_000_000_000_000;

/// Number of decimal places kept by an amount.
pub const DECIMALS: u32 = 8;

/// An amount that lies within the supported range.
pub open spec fn is_amount(x: int) -> bool {
    -AMOUNT_LIMIT <= x <= AMOUNT_LIMIT
}

/// Division that truncates toward zero, as Rust's `/` does.
pub open spec fn tdiv(a: int, b: int) -> int {
    if a >= 0 {
        a / b
    } else {
        -((-a) / b)
    }
}

pub open spec fn abs(a: int) -> int {
    if a >= 0 {
        a
    } else {
        -a
    }
}

pub open spec fn pow10(n: nat) -> int
    decreases n,
{
    if n == 0 {
        1
    } else {
        10 * pow10((n - 1) as nat)
    }
}

pub proof fn lemma_pow10_monotone(a: nat, b: nat)
    requires
        a <= b,
    ensures
        1 <= pow10(a) <= pow10(b),
    decreases b,
{
    if b > a {
        lemma_pow10_monotone(a, (b - 1) as nat);
    } else if a > 0 {
        lemma_pow10_monotone((a - 1) as nat, (a - 1) as nat);
    }
}

/// The amount, in units of 10^-8, of the decimal `mantissa * 10^-scale`,
/// truncated toward zero.
pub open spec fn units_of(mantissa: int, scale: nat) -> int {
    if scale <= DECIMALS {
        mantissa * pow10((DECIMALS - scale) as nat)
    } else {
        tdiv(mantissa, pow10((scale - DECIMALS) as nat))
    }
}

/// A truncated mean of `k` values that lie within `[-m, m]` lies there too,
/// and keeps the sign of the sum.
pub proof fn lemma_tdiv_bound(a: int, k: int, m: int)
    requires
        k > 0,
        m >= 0,
        -(k * m) <= a <= k * m,
    ensures
        -m <= tdiv(a, k) <= m,
        a >= 0 ==> tdiv(a, k) >= 0,
        a <= 0 ==> tdiv(a, k) <= 0,
{
    vstd::arithmetic::div_mod::lemma_div_multiples_vanish(m, k);
    if a >= 0 {
        vstd::arithmetic::div_mod::lemma_div_is_ordered(a, k * m, k);
        vstd::arithmetic::div_mod::lemma_div_pos_is_pos(a, k);
    } else {
        vstd::arithmetic::div_mod::lemma_div_is_ordered(-a, k * m, k);
        vstd::arithmetic::div_mod::lemma_div_pos_is_pos(-a, k);
    }
}

/// `10^n` for `n <= 28`.
fn pow10_exec(n: u32) -> (r: i128)
    requires
        n <= 28,
    ensures
        r == pow10(n as nat),
        1 <= r <= pow10(28),
{
    let mut r: i128 = 1;
    let mut i: u32 = 0;
    while i < n
        invariant
            i <= n <= 28,
            r == pow10(i as nat),
        decreases n - i,
    {
        proof {
            lemma_pow10_monotone(i as nat, 27);
            reveal_with_fuel(pow10, 28);
            assert(pow10(27) == 1_000_000_000_000_000_000_000_000_000int);
        }
        r = r * 10;
        i = i + 1;
    }
    proof {
        lemma_pow10_monotone(n as nat, 28);
    }
    r
}

/// Converts the decimal `mantissa * 10^-scale` to an amount, truncating
/// digits beyond the eighth decimal place; `None` when the value lies
/// outside the amount range.
pub fn units_from_parts(mantissa: i128, scale: u32) -> (r: Option<i64>)
    requires
        scale <= 28,
        -0x1_0000_0000_0000_0000_0000_0000 < mantissa < 0x1_0000_0000_0000_0000_0000_0000,
    ensures
        r.is_some() <==> is_amount(units_of(mantissa as int, scale as nat)),
        r.is_some() ==> r.unwrap() == units_of(mantissa as int, scale as nat),
{
    let v: i128;
    if scale <= DECIMALS {
        let p = pow10_exec(DECIMALS - scale);
        proof {
            lemma_pow10_monotone((DECIMALS - scale) as nat, 8);
            reveal_with_fuel(pow10, 9);
            assert(pow10(8) == 100_000_000);
            assert(-0x1_0000_0000_0000_0000_0000_0000 * 100_000_000 <= mantissa * p
                <= 0x1_0000_0000_0000_0000_0000_0000 * 100_000_000) by (nonlinear_arith)
                requires
                    -0x1_0000_0000_0000_0000_0000_0000 < mantissa < 0x1_0000_0000_0000_0000_0000_0000,
                    1 <= p <= 100_000_000,
            ;
        }
        v = mantissa * p;
    } else {
        let p = pow10_exec(scale - DECIMALS);
        v = mantissa / p;
    }
    if -(AMOUNT_LIMIT as i128) <= v && v <= AMOUNT_LIMIT as i128 {
        Some(v as i64)
    } else {
        None
    }
}

} // verus!
