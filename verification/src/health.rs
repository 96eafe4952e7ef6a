use vstd::prelude::*;
use vstd::string::is_ascii;

use crate::constants::{FEED_ID, LAMPORTS_PER_SOL, MAXIMUM_AGE, PERCENT, PRICE_FEED_DECIMAL_ADJUSTMENT};
use crate::error::{ErrorCode, StablecoinError};
use crate::state::{Collateral, Config};
use crate::oracle::{
    feed_id_from_hex, feed_id_of_hex, get_price_no_older_than, price_no_older_than, PriceUpdate,
};

verus! {

/// The price that every valuation uses: the SOL/USD feed's price from a fully
/// verified update at most `MAXIMUM_AGE` seconds old at `now`, which must be
/// positive.
pub open spec fn oracle_price(update: PriceUpdate, now: i64) -> Result<i64, StablecoinError> {
    match feed_id_of_hex(FEED_ID@) {
        Err(e) => Err(StablecoinError::PriceFeed(e)),
        Ok(id) => match price_no_older_than(update, now, MAXIMUM_AGE, id) {
            Err(e) => Err(StablecoinError::PriceFeed(e)),
            Ok(price) => if price > 0 {
                Ok(price)
            } else {
                Err(StablecoinError::Program(ErrorCode::InvalidPrice))
            },
        },
    }
}

/// Reads the SOL/USD price from `price_feed` at time `now`.
pub fn read_price(price_feed: &PriceUpdate, now: i64) -> (r: Result<i64, StablecoinError>)
    ensures
        r == oracle_price(*price_feed, now),
{
    proof {
        reveal_strlit("0xef0d8b6fda2ceba41da15d4095d1da392a0d2f8ed0c6c7bc0f4cfac8c280b56d");
    }
    assert(is_ascii(FEED_ID));
    let feed_id = match feed_id_from_hex(FEED_ID) {
        Ok(id) => id,
        Err(e) => return Err(StablecoinError::PriceFeed(e)),
    };
    let price = match get_price_no_older_than(price_feed, now, MAXIMUM_AGE, &feed_id) {
        Ok(p) => p,
        Err(e) => return Err(StablecoinError::PriceFeed(e)),
    };
    if price <= 0 {
        return Err(StablecoinError::Program(ErrorCode::InvalidPrice));
    }
    Ok(price)
}

/// The low 64 bits of a non-negative integer: what a cast to `u64` keeps.
pub open spec fn low_u64(x: int) -> int {
    x % 0x1_0000_0000_0000_0000
}

/// USD value, with nine decimals, of `amount` lamports at `price` (eight decimals).
pub open spec fn usd_value(amount: int, price: int) -> int {
    amount * (price * PRICE_FEED_DECIMAL_ADJUSTMENT) / (LAMPORTS_PER_SOL as int)
}

/// Lamports worth `amount` USD (nine decimals) at `price` (eight decimals).
pub open spec fn lamports_value(amount: int, price: int) -> int {
    amount * (LAMPORTS_PER_SOL as int) / (price * PRICE_FEED_DECIMAL_ADJUSTMENT)
}

/// The health factor of a position whose collateral is worth `collateral_usd`:
/// the part of that value that the threshold counts, per minted token; the
/// largest `u64` where nothing is minted.
pub open spec fn health_factor(collateral_usd: int, liquidation_threshold: int, minted: int) -> int {
    if minted == 0 {
        u64::MAX as int
    } else {
        collateral_usd * liquidation_threshold / (PERCENT as int) / minted
    }
}

/// USD value of `amount` lamports at the oracle price.
pub open spec fn usd_value_of(amount: u64, update: PriceUpdate, now: i64) -> Result<u64, StablecoinError> {
    match oracle_price(update, now) {
        Ok(price) => Ok(low_u64(usd_value(amount as int, price as int)) as u64),
        Err(e) => Err(e),
    }
}

/// Lamports worth `amount` USD at the oracle price.
pub open spec fn lamports_value_of(amount: u64, update: PriceUpdate, now: i64) -> Result<u64, StablecoinError> {
    match oracle_price(update, now) {
        Ok(price) => Ok(low_u64(lamports_value(amount as int, price as int)) as u64),
        Err(e) => Err(e),
    }
}

/// The valuation of `amount` lamports stays within `u128`.
pub open spec fn usd_value_fits(amount: u64, update: PriceUpdate, now: i64) -> bool {
    oracle_price(update, now) matches Ok(price) ==>
        amount * (price * PRICE_FEED_DECIMAL_ADJUSTMENT) <= u128::MAX
}

/// Computing the health factor of `collateral` stays within the integer types.
pub open spec fn health_factor_fits(collateral: Collateral, config: Config, update: PriceUpdate, now: i64) -> bool {
    &&& usd_value_fits(collateral.collateral_amount, update, now)
    &&& usd_value_of(collateral.collateral_amount, update, now) matches Ok(usd) ==>
        usd * config.liquidation_threshold <= u64::MAX
}

/// The health factor of `collateral` at the oracle price.
pub open spec fn health_factor_of(collateral: Collateral, config: Config, update: PriceUpdate, now: i64) -> Result<u64, StablecoinError> {
    match usd_value_of(collateral.collateral_amount, update, now) {
        Ok(usd) => Ok(health_factor(usd as int, config.liquidation_threshold as int, collateral.minted_amount as int) as u64),
        Err(e) => Err(e),
    }
}

/// Whether `collateral` may stand: its health factor is known and at least the minimum.
pub open spec fn health_check(collateral: Collateral, config: Config, update: PriceUpdate, now: i64) -> Result<(), StablecoinError> {
    match health_factor_of(collateral, config, update, now) {
        Ok(factor) => if factor >= config.min_health_factor {
            Ok(())
        } else {
            Err(StablecoinError::Program(ErrorCode::BelowMinimumHealthFactor))
        },
        Err(e) => Err(e),
    }
}

proof fn lemma_cast_keeps_low_bits(x: u128)
    ensures
        x as u64 == low_u64(x as int),
{
    assert(x as u64 == x % 0x1_0000_0000_0000_0000) by (bit_vector);
}

/// USD value of `amount_in_lamports` at a positive `price`; the value is cut to
/// its low 64 bits where it does not fit.
pub fn usd_value_at_price(amount_in_lamports: u64, price: i64) -> (r: u64)
    requires
        price > 0,
        amount_in_lamports * (price * PRICE_FEED_DECIMAL_ADJUSTMENT) <= u128::MAX,
    ensures
        r == low_u64(usd_value(amount_in_lamports as int, price as int)),
{
    let price_in_usd: u128 = price as u128 * PRICE_FEED_DECIMAL_ADJUSTMENT;
    let amount_in_usd: u128 = (amount_in_lamports as u128 * price_in_usd) / (LAMPORTS_PER_SOL as u128);
    proof {
        lemma_cast_keeps_low_bits(amount_in_usd);
    }
    #[verifier::truncate] (amount_in_usd as u64)
}

/// Lamports worth `amount_in_usd` at a positive `price`; the amount is cut to
/// its low 64 bits where it does not fit.
pub fn lamports_at_price(amount_in_usd: u64, price: i64) -> (r: u64)
    requires
        price > 0,
    ensures
        r == low_u64(lamports_value(amount_in_usd as int, price as int)),
{
    let price_in_usd: u128 = price as u128 * PRICE_FEED_DECIMAL_ADJUSTMENT;
    assert(amount_in_usd as u128 * LAMPORTS_PER_SOL as u128 <= u128::MAX) by (nonlinear_arith)
        requires
            amount_in_usd <= u64::MAX,
            LAMPORTS_PER_SOL == 1_000_000_000u64,
    ;
    let amount_in_lamports: u128 = (amount_in_usd as u128 * LAMPORTS_PER_SOL as u128) / price_in_usd;
    proof {
        lemma_cast_keeps_low_bits(amount_in_lamports);
    }
    #[verifier::truncate] (amount_in_lamports as u64)
}

/// USD value of `amount_in_lamports` at the oracle price.
pub fn get_usd_value(amount_in_lamports: u64, price_feed: &PriceUpdate, now: i64) -> (r: Result<u64, StablecoinError>)
    requires
        usd_value_fits(amount_in_lamports, *price_feed, now),
    ensures
        r == usd_value_of(amount_in_lamports, *price_feed, now),
{
    let price = match read_price(price_feed, now) {
        Ok(p) => p,
        Err(e) => return Err(e),
    };
    Ok(usd_value_at_price(amount_in_lamports, price))
}

/// Lamports worth `amount_in_usd` at the oracle price.
pub fn get_lamports_from_usd(amount_in_usd: u64, price_feed: &PriceUpdate, now: i64) -> (r: Result<u64, StablecoinError>)
    ensures
        r == lamports_value_of(amount_in_usd, *price_feed, now),
{
    let price = match read_price(price_feed, now) {
        Ok(p) => p,
        Err(e) => return Err(e),
    };
    Ok(lamports_at_price(amount_in_usd, price))
}

/// Health factor of `collateral` under `config` at the oracle price.
pub fn calculate_health_factor(
    collateral: &Collateral,
    config: &Config,
    price_feed: &PriceUpdate,
    now: i64,
) -> (r: Result<u64, StablecoinError>)
    requires
        health_factor_fits(*collateral, *config, *price_feed, now),
    ensures
        r == health_factor_of(*collateral, *config, *price_feed, now),
{
    let collateral_value_in_usd = match get_usd_value(collateral.collateral_amount, price_feed, now) {
        Ok(v) => v,
        Err(e) => return Err(e),
    };
    let collateral_adjusted_for_liquidation_threshold = collateral_value_in_usd * config.liquidation_threshold / PERCENT;
    if collateral.minted_amount == 0 {
        return Ok(u64::MAX);
    }
    Ok(collateral_adjusted_for_liquidation_threshold / collateral.minted_amount)
}

/// Refuses `collateral` where its health factor is below the configured minimum.
pub fn check_health_factor(
    collateral: &Collateral,
    config: &Config,
    price_feed: &PriceUpdate,
    now: i64,
) -> (r: Result<(), StablecoinError>)
    requires
        health_factor_fits(*collateral, *config, *price_feed, now),
    ensures
        r == health_check(*collateral, *config, *price_feed, now),
{
    let health_factor = match calculate_health_factor(collateral, config, price_feed, now) {
        Ok(h) => h,
        Err(e) => return Err(e),
    };
    if health_factor < config.min_health_factor {
        return Err(StablecoinError::Program(ErrorCode::BelowMinimumHealthFactor));
    }
    Ok(())
}

} // verus!
