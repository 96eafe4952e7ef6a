use vstd::prelude::*;

verus! {

/// Errors that the program itself raises.
#[derive(Debug, Clone, Copy, PartialEq, Eq, Structural)]
pub enum ErrorCode {
    /// The position would be left below the minimum health factor.
    BelowMinimumHealthFactor,
    /// The price feed reported a price that is not positive.
    InvalidPrice,
    /// A liquidation was asked for a position that is not below the minimum health factor.
    AboveMinimumHealthFactor,
}

/// Errors of the price-feed reader.
#[derive(Debug, Clone, Copy, PartialEq, Eq, Structural)]
pub enum PriceFeedError {
    /// The update's age exceeds the requested maximum age.
    PriceTooOld,
    /// A time-weighted update covers another window than the one requested.
    InvalidWindowSize,
    /// The update is for another feed.
    MismatchedFeedId,
    /// The update has a lower verification level than the one requested.
    InsufficientVerificationLevel,
    /// A feed id must be 64 hex characters, or 66 with a two-character prefix.
    FeedIdMustBe32Bytes,
    /// A feed id holds a character that is not a hex digit.
    FeedIdNonHexCharacter,
}

/// Every way an instruction of the library can be refused.
#[derive(Debug, Clone, Copy, PartialEq, Eq, Structural)]
pub enum StablecoinError {
    Program(ErrorCode),
    PriceFeed(PriceFeedError),
}

} // verus!
