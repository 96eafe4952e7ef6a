use vstd::prelude::*;

verus! {

/// Hex id of the SOL/USD price feed that every valuation reads.
pub const FEED_ID: &'static str = "0xef0d8b6fda2ceba41da15d4095d1da392a0d2f8ed0c6c7bc0f4cfac8c280b56d";

/// Largest accepted age of a price update, in seconds.
pub const MAXIMUM_AGE: u64 = 100;

/// Factor that brings the feed's price (eight decimals) to nine decimals.
pub const PRICE_FEED_DECIMAL_ADJUSTMENT: u128 = 10;

/// Number of lamports in one SOL.
pub const LAMPORTS_PER_SOL: u64 = 1_000_000_000;

/// Share of the collateral value, in percent, that counts toward the health factor.
pub const LIQUIDATION_THRESHOLD: u64 = 50;

/// Extra collateral, in percent of the repaid value, that a liquidator receives.
pub const LIQUIDATION_BONUS: u64 = 10;

/// Smallest health factor that a position may be left with.
pub const MIN_HEALTH_FACTOR: u64 = 1;

/// Decimals of the stablecoin mint.
pub const MINT_DECIMALS: u8 = 9;

/// Base of the percentages above.
pub const PERCENT: u64 = 100;

} // verus!
