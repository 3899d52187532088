use switchboard_on_demand::on_demand::accounts::pull_feed::PullFeedAccountData;
use switchboard_on_demand::OnDemandError;
use vstd::prelude::*;

use crate::price::{ErrorCode, PriceValue};

verus! {

#[verifier::external_type_specification]
#[verifier::external_body]
pub struct ExOnDemandError(OnDemandError);

/// Length of a pull feed account: an 8-byte discriminator, then the record.
pub const FEED_ACCOUNT_LEN: usize = 3208;

/// Decimal places of the values that a pull feed reports.
pub const FEED_SCALE: u32 = 18;

/// The 8 bytes that open every pull feed account.
pub open spec fn feed_discriminator() -> Seq<u8> {
    seq![196u8, 27u8, 108u8, 196u8, 10u8, 215u8, 219u8, 40u8]
}

/// The unsigned integer that the bytes `b` encode, least significant first.
pub open spec fn le_uint(b: Seq<u8>) -> nat
    decreases b.len(),
{
    if b.len() == 0 {
        0
    } else {
        b[0] as nat + 256 * le_uint(b.drop_first())
    }
}

/// The signed 128-bit integer (two's complement) that 16 bytes `b` encode,
/// least significant first.
pub open spec fn le_i128(b: Seq<u8>) -> int {
    if le_uint(b) < 0x8000_0000_0000_0000_0000_0000_0000_0000 {
        le_uint(b) as int
    } else {
        le_uint(b) - 0x1_0000_0000_0000_0000_0000_0000_0000_0000
    }
}

/// `raw` has the length and the discriminator of a pull feed account.
pub open spec fn is_feed_account(raw: Seq<u8>) -> bool {
    raw.len() >= FEED_ACCOUNT_LEN && raw.subrange(0, 8) == feed_discriminator()
}

/// The slot at which the feed's current result was recorded; 0 if never.
pub open spec fn result_slot(raw: Seq<u8>) -> nat {
    le_uint(raw.subrange(2368, 2376))
}

/// The feed's current result, as an integer of `FEED_SCALE` decimal places.
pub open spec fn result_value(raw: Seq<u8>) -> int {
    le_i128(raw.subrange(2264, 2280))
}

/// The price that a feed result gives, from its slot and its value.
pub open spec fn feed_price_result(slot: nat, value: i128) -> Result<PriceValue, ErrorCode> {
    if slot == 0 {
        Err(ErrorCode::InvalidPrice)
    } else {
        Ok(PriceValue { mantissa: value, scale: FEED_SCALE })
    }
}

/// What decoding the account bytes `raw` gives.
pub open spec fn decode_result(raw: Seq<u8>) -> Result<PriceValue, ErrorCode> {
    if !is_feed_account(raw) {
        Err(ErrorCode::InvalidFeedData)
    } else {
        feed_price_result(result_slot(raw), result_value(raw) as i128)
    }
}

/// Relies on `PullFeedAccountData::parse` (switchboard-on-demand): it accepts
/// exactly the buffers of at least `FEED_ACCOUNT_LEN` bytes that open with the
/// discriminator, and reads the record's fields in place (little-endian). The
/// bytes are first copied to a 16-byte aligned buffer, so that the record's
/// alignment check depends on nothing but the bytes. The result's slot and value
/// are read from the record's `result` field.
#[verifier::external_body]
fn parse_pull_feed(raw: &[u8]) -> (r: Result<(u64, i128), OnDemandError>)
    ensures
        r is Ok <==> is_feed_account(raw@),
        r matches Ok(f) ==> f.0 == result_slot(raw@) && f.1 == result_value(raw@),
{
    let mut words = vec![0u128; raw.len()];
    words.push(0);
    let bytes = &mut bytemuck::cast_slice_mut::<u128, u8>(&mut words)[8..][..raw.len()];
    bytes.copy_from_slice(raw);
    let cell = std::cell::RefCell::new(bytes);
    let feed = PullFeedAccountData::parse(cell.borrow())?;
    Ok((feed.result.slot, feed.result.value))
}

/// The price of a feed result: none while the feed has never been updated
/// (its slot is 0), else the value at `FEED_SCALE` decimal places.
pub fn feed_price(slot: u64, value: i128) -> (r: Result<PriceValue, ErrorCode>)
    ensures
        r == feed_price_result(slot as nat, value),
{
    if slot == 0 {
        Err(ErrorCode::InvalidPrice)
    } else {
        Ok(PriceValue { mantissa: value, scale: FEED_SCALE })
    }
}

/// Decodes the bytes of a pull feed account into the price it reports.
pub fn decode(raw: &[u8]) -> (r: Result<PriceValue, ErrorCode>)
    ensures
        r == decode_result(raw@),
{
    match parse_pull_feed(raw) {
        Ok((slot, value)) => feed_price(slot, value),
        Err(_) => Err(ErrorCode::InvalidFeedData),
    }
}

} // verus!
