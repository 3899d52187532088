//! Converts a USD amount in cents into base units of SOL, at the price that a
//! Switchboard on-demand pull feed reports.
//!
//! The feed record is decoded into a [`PriceValue`] (a mantissa and a decimal
//! scale), and the conversion is computed exactly in integer arithmetic, with a
//! typed [`ErrorCode`] for every input that yields no amount.

pub mod conversion;
pub mod feed;
pub mod instructions;
pub mod laws;
pub mod price;

pub use conversion::{quote, UNITS_PER_MAJOR};
pub use feed::{decode, feed_price, FEED_ACCOUNT_LEN, FEED_SCALE};
pub use instructions::{pricefeedtest, quote_sol_for_usd, PriceFeedTest, SolUsdSwap};
pub use price::{ErrorCode, PriceValue};
