use vstd::arithmetic::div_mod::lemma_div_is_ordered;
use vstd::arithmetic::mul::lemma_mul_inequality;
use vstd::prelude::*;

use crate::conversion::{exact_base_units, pow10, quote_result, UNITS_PER_MAJOR};
use crate::price::{ErrorCode, PriceValue};

verus! {

/// At a positive price, a positive amount whose exact conversion is a nonzero
/// 64-bit value is quoted as exactly
/// `usd_amount_cents * UNITS_PER_MAJOR * 10^scale / (mantissa * 100)`, rounded down.
pub proof fn quote_is_exact(usd_amount_cents: u64, price: PriceValue)
    requires
        price.mantissa > 0,
        usd_amount_cents > 0,
        1 <= exact_base_units(usd_amount_cents, price) <= u64::MAX,
    ensures
        quote_result(usd_amount_cents, price) == Ok::<u64, ErrorCode>(
            ((usd_amount_cents * UNITS_PER_MAJOR * pow10(price.scale as nat)) as int / (
            price.mantissa * 100)) as u64,
        ),
{
}

/// At a fixed price, a larger amount never gets fewer base units: if the smaller
/// amount is quoted, the larger one is quoted at least as high, or is too large.
pub proof fn quote_is_monotone(smaller: u64, larger: u64, price: PriceValue)
    requires
        smaller <= larger,
        quote_result(smaller, price) is Ok,
    ensures
        quote_result(larger, price) is Ok || quote_result(larger, price) == Err::<u64, ErrorCode>(
            ErrorCode::AmountTooLarge,
        ),
        quote_result(larger, price) matches Ok(b) ==> quote_result(smaller, price)->Ok_0 <= b,
{
    let p = pow10(price.scale as nat) as int;
    lemma_mul_inequality(smaller as int, larger as int, UNITS_PER_MAJOR as int);
    lemma_mul_inequality(
        smaller as int * UNITS_PER_MAJOR as int,
        larger as int * UNITS_PER_MAJOR as int,
        p,
    );
    lemma_div_is_ordered(
        smaller as int * UNITS_PER_MAJOR as int * p,
        larger as int * UNITS_PER_MAJOR as int * p,
        price.mantissa * 100,
    );
}

/// A price whose mantissa is zero or negative is refused, whatever the amount.
pub proof fn nonpositive_price_is_refused(usd_amount_cents: u64, price: PriceValue)
    requires
        price.mantissa <= 0,
    ensures
        quote_result(usd_amount_cents, price) == Err::<u64, ErrorCode>(ErrorCode::InvalidPrice),
{
}

/// An amount that rounds down to no base unit is refused, not quoted as zero.
pub proof fn zero_result_is_refused(usd_amount_cents: u64, price: PriceValue)
    requires
        price.mantissa > 0,
        exact_base_units(usd_amount_cents, price) == 0,
    ensures
        quote_result(usd_amount_cents, price) == Err::<u64, ErrorCode>(
            ErrorCode::InvalidCalculation,
        ),
{
}

/// An amount beyond `u64::MAX` base units is refused, not wrapped or truncated.
pub proof fn oversized_result_is_refused(usd_amount_cents: u64, price: PriceValue)
    requires
        price.mantissa > 0,
        exact_base_units(usd_amount_cents, price) > u64::MAX,
    ensures
        quote_result(usd_amount_cents, price) == Err::<u64, ErrorCode>(ErrorCode::AmountTooLarge),
{
}

} // verus!
