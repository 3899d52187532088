use vstd::prelude::*;

use crate::conversion::{quote, quote_result};
use crate::feed::{decode, decode_result};
use crate::price::{ErrorCode, PriceValue};

verus! {

/// The accounts of the price display instruction: the pull feed's data.
pub struct PriceFeedTest {
    pub feed: Vec<u8>,
}

/// The accounts of the quote instruction. The user and the system program are
/// capabilities that the host runtime checks; the conversion never reads them.
pub struct SolUsdSwap {
    pub feed: Vec<u8>,
    pub user: [u8; 32],
    pub system_program: [u8; 32],
}

/// What a quote of `usd_amount` cents against the feed account `raw` gives.
pub open spec fn quote_for_feed(raw: Seq<u8>, usd_amount: u64) -> Result<u64, ErrorCode> {
    match decode_result(raw) {
        Ok(price) => quote_result(usd_amount, price),
        Err(e) => Err(e),
    }
}

/// The price that the feed account reports.
pub fn pricefeedtest(ctx: &PriceFeedTest) -> (r: Result<PriceValue, ErrorCode>)
    ensures
        r == decode_result(ctx.feed@),
{
    decode(ctx.feed.as_slice())
}

/// The base units that `usd_amount` cents buy at the feed account's price.
pub fn quote_sol_for_usd(ctx: &SolUsdSwap, usd_amount: u64) -> (r: Result<u64, ErrorCode>)
    ensures
        r == quote_for_feed(ctx.feed@, usd_amount),
{
    let price = match decode(ctx.feed.as_slice()) {
        Ok(p) => p,
        Err(e) => return Err(e),
    };
    quote(usd_amount, price)
}

} // verus!
