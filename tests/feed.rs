use sol_quote::{
    decode, feed_price, pricefeedtest, quote_sol_for_usd, ErrorCode, PriceFeedTest, PriceValue,
    SolUsdSwap, FEED_ACCOUNT_LEN, FEED_SCALE,
};

const DISCRIMINATOR: [u8; 8] = [196, 27, 108, 196, 10, 215, 219, 40];

fn feed_account(slot: u64, value: i128) -> Vec<u8> {
    let mut raw = vec![0u8; FEED_ACCOUNT_LEN];
    raw[..8].copy_from_slice(&DISCRIMINATOR);
    raw[2264..2280].copy_from_slice(&value.to_le_bytes());
    raw[2368..2376].copy_from_slice(&slot.to_le_bytes());
    raw
}

fn swap(feed: Vec<u8>) -> SolUsdSwap {
    SolUsdSwap { feed, user: [1u8; 32], system_program: [0u8; 32] }
}

#[test]
fn wrong_length_is_invalid_feed_data() {
    let raw = feed_account(7, 150_000_000_000_000_000_000);
    assert_eq!(decode(&raw[..FEED_ACCOUNT_LEN - 1]), Err(ErrorCode::InvalidFeedData));
    assert_eq!(decode(&raw[..8]), Err(ErrorCode::InvalidFeedData));
    assert_eq!(decode(&raw[..3]), Err(ErrorCode::InvalidFeedData));
    assert_eq!(decode(&[]), Err(ErrorCode::InvalidFeedData));
}

#[test]
fn bad_discriminator_is_invalid_feed_data() {
    let mut raw = feed_account(7, 150_000_000_000_000_000_000);
    raw[3] ^= 1;
    assert_eq!(decode(&raw), Err(ErrorCode::InvalidFeedData));
}

#[test]
fn never_updated_feed_is_invalid_price() {
    let raw = feed_account(0, 150_000_000_000_000_000_000);
    assert_eq!(decode(&raw), Err(ErrorCode::InvalidPrice));
}

#[test]
fn decodes_the_current_result() {
    let raw = feed_account(42, 150_000_000_000_000_000_000);
    assert_eq!(FEED_SCALE, 18);
    assert_eq!(
        decode(&raw),
        Ok(PriceValue { mantissa: 150_000_000_000_000_000_000, scale: 18 })
    );
}

#[test]
fn decodes_a_negative_value_and_trailing_bytes() {
    let mut raw = feed_account(u64::MAX, -5);
    raw.extend_from_slice(&[9u8; 24]);
    assert_eq!(decode(&raw), Ok(PriceValue { mantissa: -5, scale: 18 }));
}

#[test]
fn feed_price_from_result() {
    assert_eq!(feed_price(0, 1), Err(ErrorCode::InvalidPrice));
    assert_eq!(feed_price(1, 1), Ok(PriceValue { mantissa: 1, scale: 18 }));
    assert_eq!(feed_price(9, i128::MIN), Ok(PriceValue { mantissa: i128::MIN, scale: 18 }));
}

#[test]
fn price_display_reads_the_feed() {
    let ctx = PriceFeedTest { feed: feed_account(3, 2_500_000_000_000_000_000) };
    assert_eq!(pricefeedtest(&ctx), Ok(PriceValue { mantissa: 2_500_000_000_000_000_000, scale: 18 }));
    let bad = PriceFeedTest { feed: vec![0u8; 10] };
    assert_eq!(pricefeedtest(&bad), Err(ErrorCode::InvalidFeedData));
}

#[test]
fn quote_against_a_feed() {
    let ctx = swap(feed_account(42, 150_000_000_000_000_000_000));
    assert_eq!(quote_sol_for_usd(&ctx, 100), Ok(6_666_666));
    assert_eq!(quote_sol_for_usd(&ctx, 0), Err(ErrorCode::InvalidCalculation));
}

#[test]
fn quote_against_a_bad_feed() {
    assert_eq!(quote_sol_for_usd(&swap(vec![1u8; 100]), 100), Err(ErrorCode::InvalidFeedData));
    assert_eq!(quote_sol_for_usd(&swap(feed_account(0, 150)), 100), Err(ErrorCode::InvalidPrice));
    assert_eq!(quote_sol_for_usd(&swap(feed_account(5, 0)), 100), Err(ErrorCode::InvalidPrice));
    assert_eq!(quote_sol_for_usd(&swap(feed_account(5, -150)), 100), Err(ErrorCode::InvalidPrice));
    assert_eq!(quote_sol_for_usd(&swap(feed_account(5, 1)), u64::MAX), Err(ErrorCode::AmountTooLarge));
}
