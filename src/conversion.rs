use vstd::arithmetic::div_mod::{
    lemma_div_denominator, lemma_div_is_ordered, lemma_div_multiples_vanish,
    lemma_fundamental_div_mod, lemma_fundamental_div_mod_converse,
};
use vstd::arithmetic::mul::lemma_mul_inequality;
use vstd::prelude::*;

use crate::price::{ErrorCode, PriceValue};

verus! {

/// Base units in one major unit (lamports in one SOL).
pub const UNITS_PER_MAJOR: u64 = 1_000_000_000;

/// Base units in one major unit per cent: `UNITS_PER_MAJOR / 100`.
const UNITS_PER_CENT: u64 = 10_000_000;

pub open spec fn pow10(n: nat) -> nat
    decreases n,
{
    if n == 0 {
        1
    } else {
        10 * pow10((n - 1) as nat)
    }
}

/// The exact amount of base units that `usd_amount_cents` buys at `price`,
/// rounded down: `usd_amount_cents * UNITS_PER_MAJOR * 10^scale / (mantissa * 100)`.
pub open spec fn exact_base_units(usd_amount_cents: u64, price: PriceValue) -> int
    recommends
        price.mantissa > 0,
{
    (usd_amount_cents * UNITS_PER_MAJOR * pow10(price.scale as nat)) as int / (price.mantissa
        * 100)
}

/// What `quote` returns, in the order in which the checks apply.
pub open spec fn quote_result(usd_amount_cents: u64, price: PriceValue) -> Result<u64, ErrorCode> {
    if price.mantissa <= 0 {
        Err(ErrorCode::InvalidPrice)
    } else if exact_base_units(usd_amount_cents, price) == 0 {
        Err(ErrorCode::InvalidCalculation)
    } else if exact_base_units(usd_amount_cents, price) > u64::MAX {
        Err(ErrorCode::AmountTooLarge)
    } else {
        Ok(exact_base_units(usd_amount_cents, price) as u64)
    }
}

proof fn lemma_pow10_positive(n: nat)
    ensures
        pow10(n) >= 1,
    decreases n,
{
    if n > 0 {
        lemma_pow10_positive((n - 1) as nat);
    }
}

proof fn lemma_pow10_monotone(a: nat, b: nat)
    requires
        a <= b,
    ensures
        pow10(a) <= pow10(b),
    decreases b,
{
    if a < b {
        lemma_pow10_monotone(a, (b - 1) as nat);
        lemma_pow10_positive((b - 1) as nat);
    }
}

/// The cents, scaled up to base units, can be divided by the mantissa alone.
proof fn lemma_exact_by_mantissa(usd_amount_cents: u64, price: PriceValue)
    requires
        price.mantissa > 0,
    ensures
        exact_base_units(usd_amount_cents, price) == (usd_amount_cents * UNITS_PER_CENT * pow10(
            price.scale as nat,
        )) as int / price.mantissa as int,
{
    let p = pow10(price.scale as nat) as int;
    let y = usd_amount_cents as int * UNITS_PER_CENT as int * p;
    let m = price.mantissa as int;
    assert(usd_amount_cents as int * UNITS_PER_MAJOR as int * p == 100 * y) by (nonlinear_arith)
        requires
            y == usd_amount_cents as int * 10_000_000 * p,
    ;
    lemma_pow10_positive(price.scale as nat);
    assert(y >= 0) by (nonlinear_arith)
        requires
            y == usd_amount_cents as int * 10_000_000 * p,
            p >= 1,
    ;
    lemma_div_denominator(100 * y, 100, m);
    lemma_div_multiples_vanish(y, 100);
    assert(100 * m == m * 100);
}

/// Of a scaled amount `x * 10^k`, the quotient by `m` grows with `k`.
proof fn lemma_quotient_grows(x: int, m: int, k: nat, s: nat)
    requires
        x >= 0,
        m > 0,
        k <= s,
    ensures
        (x * pow10(k)) / m <= (x * pow10(s)) / m,
{
    lemma_pow10_monotone(k, s);
    lemma_mul_inequality(pow10(k) as int, pow10(s) as int, x);
    assert(x * pow10(k) == pow10(k) * x);
    assert(x * pow10(s) == pow10(s) * x);
    lemma_div_is_ordered(x * pow10(k), x * pow10(s), m);
}

/// Ten times `r`, divided by `m`: the quotient and the remainder.
fn times_ten_mod(r: u128, m: u128) -> (res: (u128, u128))
    requires
        r < m,
    ensures
        res.0 <= 10,
        res.1 < m,
        10 * r == res.0 * m + res.1,
{
    let mut carry: u128 = 0;
    let mut acc: u128 = 0;
    let mut i: u32 = 0;
    while i < 10
        invariant
            r < m,
            acc < m,
            carry <= i,
            i <= 10,
            i * r == carry * m + acc,
        decreases 10 - i,
    {
        let ghost old_carry = carry;
        let ghost old_acc = acc;
        if acc >= m - r {
            acc = acc - (m - r);
            carry = carry + 1;
            assert((i + 1) * r == carry * m + acc) by (nonlinear_arith)
                requires
                    i * r == old_carry * m + old_acc,
                    old_acc + r == m + acc,
                    carry == old_carry + 1,
            ;
        } else {
            acc = acc + r;
            assert((i + 1) * r == carry * m + acc) by (nonlinear_arith)
                requires
                    i * r == old_carry * m + old_acc,
                    old_acc + r == acc,
                    carry == old_carry,
            ;
        }
        i = i + 1;
    }
    (carry, acc)
}

/// Converts `usd_amount_cents` into base units at `price`.
///
/// The result is the exact quotient
/// `usd_amount_cents * UNITS_PER_MAJOR * 10^scale / (mantissa * 100)`, rounded
/// down; it is computed digit by digit, so no intermediate value can overflow,
/// whatever the scale.
pub fn quote(usd_amount_cents: u64, price: PriceValue) -> (r: Result<u64, ErrorCode>)
    ensures
        r == quote_result(usd_amount_cents, price),
{
    if price.mantissa <= 0 {
        return Err(ErrorCode::InvalidPrice);
    }
    let m: u128 = price.mantissa as u128;
    let ghost s = price.scale as nat;
    let start: u128 = usd_amount_cents as u128 * UNITS_PER_CENT as u128;
    let ghost exact = exact_base_units(usd_amount_cents, price);
    proof {
        lemma_exact_by_mantissa(usd_amount_cents, price);
        assert(exact == (start * pow10(s)) / (m as int));
    }
    let mut q: u128 = start / m;
    let mut rem: u128 = start % m;
    proof {
        lemma_fundamental_div_mod(start as int, m as int);
        assert(pow10(0) == 1);
        assert(q * m + rem == start * pow10(0)) by (nonlinear_arith)
            requires
                start == m * q + rem,
                pow10(0) == 1,
        ;
        lemma_quotient_grows(start as int, m as int, 0, s);
    }
    if q > u64::MAX as u128 {
        return Err(ErrorCode::AmountTooLarge);
    }
    let mut k: u32 = 0;
    while k < price.scale
        invariant
            m == price.mantissa as int,
            0 < m,
            rem < m,
            q <= u64::MAX,
            k <= price.scale,
            s == price.scale as nat,
            exact == exact_base_units(usd_amount_cents, price),
            exact == (start * pow10(s)) / (m as int),
            start == usd_amount_cents * UNITS_PER_CENT,
            q * m + rem == start * pow10(k as nat),
        decreases price.scale - k,
    {
        let (carry, next_rem) = times_ten_mod(rem, m);
        let next_q: u128 = q * 10 + carry;
        proof {
            let p = pow10(k as nat) as int;
            assert(pow10((k + 1) as nat) == 10 * p);
            assert(next_q * m + next_rem == start * (10 * p)) by (nonlinear_arith)
                requires
                    q * m + rem == start * p,
                    10 * rem == carry * m + next_rem,
                    next_q == q * 10 + carry,
            ;
            lemma_fundamental_div_mod_converse(
                start * pow10((k + 1) as nat),
                m as int,
                next_q as int,
                next_rem as int,
            );
            lemma_quotient_grows(start as int, m as int, (k + 1) as nat, s);
        }
        if next_q > u64::MAX as u128 {
            return Err(ErrorCode::AmountTooLarge);
        }
        q = next_q;
        rem = next_rem;
        k = k + 1;
    }
    proof {
        lemma_fundamental_div_mod_converse(start * pow10(s), m as int, q as int, rem as int);
    }
    if q == 0 {
        Err(ErrorCode::InvalidCalculation)
    } else {
        Ok(q as u64)
    }
}

} // verus!
