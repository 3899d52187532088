use vstd::prelude::*;

verus! {

/// A price in fixed-point form: `mantissa * 10^(-scale)` USD per major unit.
#[derive(Clone, Copy, Debug, PartialEq, Eq, Structural)]
pub struct PriceValue {
    pub mantissa: i128,
    pub scale: u32,
}

/// The ways in which decoding a feed or converting an amount can fail.
#[derive(Clone, Copy, Debug, PartialEq, Eq, Structural)]
pub enum ErrorCode {
    /// The feed record cannot be parsed.
    InvalidFeedData,
    /// The feed holds no current value, or the price is not strictly positive.
    InvalidPrice,
    /// The amount rounds down to zero base units.
    InvalidCalculation,
    /// The amount does not fit in 64 bits.
    AmountTooLarge,
}

impl ErrorCode {
    /// The message that goes with each error.
    pub fn message(&self) -> (r: &'static str)
        ensures
            r@ == error_message(*self),
    {
        match self {
            ErrorCode::InvalidFeedData => "Invalid feed data or unable to parse feed",
            ErrorCode::InvalidPrice => "Invalid price received from feed",
            ErrorCode::InvalidCalculation => "Invalid calculation result",
            ErrorCode::AmountTooLarge => "Amount too large for representation",
        }
    }
}

pub open spec fn error_message(e: ErrorCode) -> Seq<char> {
    match e {
        ErrorCode::InvalidFeedData => "Invalid feed data or unable to parse feed"@,
        ErrorCode::InvalidPrice => "Invalid price received from feed"@,
        ErrorCode::InvalidCalculation => "Invalid calculation result"@,
        ErrorCode::AmountTooLarge => "Amount too large for representation"@,
    }
}

} // verus!
