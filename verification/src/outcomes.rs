//! Laws that state each operation's outcome directly in terms of its inputs:
//! the price an update yields, the health factor a position has, and when a
//! deposit, redemption or liquidation is accepted and with what result.
use vstd::prelude::*;

use crate::constants::FEED_ID;
use crate::error::{ErrorCode, PriceFeedError, StablecoinError};
use crate::health::{health_check, health_factor_of, lamports_value_of, oracle_price, usd_value_of};
use crate::instructions::{
    deposit_and_mint_result, initial_config, liquidate_result, liquidated, redeem_result, DepositAndMint,
    InitConfig, Liquidate, RedeemCollateralAndBurnTokens,
};
use crate::oracle::{feed_id_of_hex, PriceUpdate};
use crate::state::{Collateral, Config};

verus! {

/// USD value (nine decimals) of `lamports` at a price with eight decimals, as
/// the low 64 bits of `lamports * price * 10 / 10^9`.
pub open spec fn usd_of(lamports: int, price: int) -> int {
    (lamports * (price * 10) / 1_000_000_000) % 0x1_0000_0000_0000_0000
}

/// Lamports worth `usd` at a price with eight decimals, as the low 64 bits of
/// `usd * 10^9 / (price * 10)`.
pub open spec fn lamports_of(usd: int, price: int) -> int {
    (usd * 1_000_000_000 / (price * 10)) % 0x1_0000_0000_0000_0000
}

/// Health factor: threshold percent of the value per minted token,
/// the largest `u64` without debt.
pub open spec fn factor_of(usd: int, threshold: int, minted: int) -> int {
    if minted == 0 {
        0xffff_ffff_ffff_ffff
    } else {
        usd * threshold / 100 / minted
    }
}

/// A fully verified update for the SOL/USD feed, published at most 100
/// seconds before `now` (or after it), with a positive price.
pub open spec fn usable(update: PriceUpdate, now: i64) -> bool {
    &&& update.verification_level is Full
    &&& feed_id_of_hex(FEED_ID@) == Ok::<Seq<u8>, PriceFeedError>(update.feed_id@)
    &&& update.publish_time + 100 >= now
    &&& update.price > 0
}

/// A price is read exactly from the updates that are fully verified, for the
/// SOL/USD feed, at most 100 seconds old (an update published after `now`
/// counts as fresh) and positive; the price read is the update's price. A
/// refusal names the first of those conditions that fails.
pub proof fn price_read_is_exact(update: PriceUpdate, now: i64)
    ensures
        FEED_ID@ == "0xef0d8b6fda2ceba41da15d4095d1da392a0d2f8ed0c6c7bc0f4cfac8c280b56d"@,
        oracle_price(update, now) is Ok <==> usable(update, now),
        oracle_price(update, now) is Ok ==> oracle_price(update, now) == Ok::<i64, StablecoinError>(
            update.price,
        ),
        !(update.verification_level is Full) ==> oracle_price(update, now) == Err::<i64, StablecoinError>(
            StablecoinError::PriceFeed(PriceFeedError::InsufficientVerificationLevel),
        ),
        update.verification_level is Full && feed_id_of_hex(FEED_ID@) != Ok::<Seq<u8>, PriceFeedError>(
            update.feed_id@,
        ) ==> oracle_price(update, now) == Err::<i64, StablecoinError>(
            StablecoinError::PriceFeed(PriceFeedError::MismatchedFeedId),
        ),
        update.verification_level is Full && feed_id_of_hex(FEED_ID@) == Ok::<Seq<u8>, PriceFeedError>(
            update.feed_id@,
        ) && update.publish_time + 100 < now ==> oracle_price(update, now) == Err::<i64, StablecoinError>(
            StablecoinError::PriceFeed(PriceFeedError::PriceTooOld),
        ),
        update.verification_level is Full && feed_id_of_hex(FEED_ID@) == Ok::<Seq<u8>, PriceFeedError>(
            update.feed_id@,
        ) && update.publish_time + 100 >= now && update.price <= 0 ==> oracle_price(update, now) == Err::<
            i64,
            StablecoinError,
        >(StablecoinError::Program(ErrorCode::InvalidPrice)),
{
    crate::laws::feed_id_is_well_formed();
}

/// Valuations and health factors at a readable price `price`, and the health
/// check: a position passes exactly when its health factor is at least the
/// configured minimum, and is otherwise refused as below it. Where the price
/// cannot be read, every one of them gives the read's error.
pub proof fn health_is_exact(collateral: Collateral, config: Config, update: PriceUpdate, now: i64, amount: u64)
    requires
        oracle_price(update, now) matches Ok(price) ==> usd_of(collateral.collateral_amount as int, price as int)
            * config.liquidation_threshold <= u64::MAX,
    ensures
        oracle_price(update, now) matches Ok(price) ==> {
            &&& usd_value_of(amount, update, now) == Ok::<u64, StablecoinError>(usd_of(amount as int, price as int) as u64)
            &&& lamports_value_of(amount, update, now) == Ok::<u64, StablecoinError>(
                lamports_of(amount as int, price as int) as u64,
            )
            &&& health_factor_of(collateral, config, update, now) == Ok::<u64, StablecoinError>(
                factor_of(
                    usd_of(collateral.collateral_amount as int, price as int),
                    config.liquidation_threshold as int,
                    collateral.minted_amount as int,
                ) as u64,
            )
            &&& health_check(collateral, config, update, now) is Ok <==> factor_of(
                usd_of(collateral.collateral_amount as int, price as int),
                config.liquidation_threshold as int,
                collateral.minted_amount as int,
            ) >= config.min_health_factor
            &&& health_check(collateral, config, update, now) is Err ==> health_check(collateral, config, update, now)
                == Err::<(), StablecoinError>(StablecoinError::Program(ErrorCode::BelowMinimumHealthFactor))
        },
        oracle_price(update, now) matches Err(e) ==> {
            &&& usd_value_of(amount, update, now) == Err::<u64, StablecoinError>(e)
            &&& lamports_value_of(amount, update, now) == Err::<u64, StablecoinError>(e)
            &&& health_factor_of(collateral, config, update, now) == Err::<u64, StablecoinError>(e)
            &&& health_check(collateral, config, update, now) == Err::<(), StablecoinError>(e)
        },
{
    if oracle_price(update, now) is Ok {
        let price = oracle_price(update, now)->Ok_0;
        let usd = usd_of(collateral.collateral_amount as int, price as int);
        let t = config.liquidation_threshold as int;
        let m = collateral.minted_amount as int;
        if m > 0 {
            assert(0 <= usd * t / 100 / m <= u64::MAX) by (nonlinear_arith)
                requires
                    0 <= usd,
                    0 <= t,
                    usd * t <= u64::MAX,
                    m >= 1,
            ;
        }
    }
}

/// A deposit at a readable price is accepted exactly when the position it
/// leaves (vault balance plus the deposit, debt plus the mint) has a health
/// factor of at least the minimum; it then records that position, taking the
/// depositor's addresses and bumps on the first deposit only. Otherwise it is
/// refused as below the minimum.
pub proof fn deposit_is_exact(ctx: DepositAndMint, amount_collateral: u64, amount_to_mint: u64, now: i64)
    requires
        ctx.sol_account_lamports + amount_collateral <= u64::MAX,
        ctx.collateral.minted_amount + amount_to_mint <= u64::MAX,
        oracle_price(ctx.price_update, now) matches Ok(price) ==> usd_of(
            ctx.sol_account_lamports + amount_collateral,
            price as int,
        ) * ctx.config.liquidation_threshold <= u64::MAX,
    ensures
        oracle_price(ctx.price_update, now) matches Ok(price) ==> {
            let f = factor_of(
                usd_of(ctx.sol_account_lamports + amount_collateral, price as int),
                ctx.config.liquidation_threshold as int,
                ctx.collateral.minted_amount + amount_to_mint,
            );
            &&& deposit_and_mint_result(ctx, amount_collateral, amount_to_mint, now) is Ok <==> f
                >= ctx.config.min_health_factor
            &&& f < ctx.config.min_health_factor ==> deposit_and_mint_result(
                ctx,
                amount_collateral,
                amount_to_mint,
                now,
            ) == Err::<Collateral, StablecoinError>(
                StablecoinError::Program(ErrorCode::BelowMinimumHealthFactor),
            )
        },
        oracle_price(ctx.price_update, now) matches Err(e) ==> deposit_and_mint_result(
            ctx,
            amount_collateral,
            amount_to_mint,
            now,
        ) == Err::<Collateral, StablecoinError>(e),
        deposit_and_mint_result(ctx, amount_collateral, amount_to_mint, now) matches Ok(c) ==> {
            &&& c.collateral_amount == ctx.sol_account_lamports + amount_collateral
            &&& c.minted_amount == ctx.collateral.minted_amount + amount_to_mint
            &&& c.is_initialized
            &&& ctx.collateral.is_initialized ==> {
                &&& c.depositor == ctx.collateral.depositor
                &&& c.sol_account == ctx.collateral.sol_account
                &&& c.token_account == ctx.collateral.token_account
                &&& c.bump == ctx.collateral.bump
                &&& c.bump_sol_account == ctx.collateral.bump_sol_account
            }
            &&& !ctx.collateral.is_initialized ==> {
                &&& c.depositor == ctx.depositor
                &&& c.sol_account == ctx.sol_account
                &&& c.token_account == ctx.token_account
                &&& c.bump == ctx.collateral_bump
                &&& c.bump_sol_account == ctx.sol_account_bump
            }
        },
{
    let c = crate::instructions::deposited(ctx, amount_collateral, amount_to_mint);
    health_is_exact(c, ctx.config, ctx.price_update, now, 0);
}

/// A redemption at a readable price is accepted exactly when the position it
/// leaves (vault balance minus the withdrawal, debt minus the burn) has a
/// health factor of at least the minimum; it then records that position and
/// nothing else of it changes. Otherwise it is refused as below the minimum.
pub proof fn redemption_is_exact(
    ctx: RedeemCollateralAndBurnTokens,
    withdraw_sol_amount: u64,
    burn_tokens_amount: u64,
    now: i64,
)
    requires
        withdraw_sol_amount <= ctx.sol_account_lamports,
        burn_tokens_amount <= ctx.collateral.minted_amount,
        oracle_price(ctx.price_update, now) matches Ok(price) ==> usd_of(
            ctx.sol_account_lamports - withdraw_sol_amount,
            price as int,
        ) * ctx.config.liquidation_threshold <= u64::MAX,
    ensures
        oracle_price(ctx.price_update, now) matches Ok(price) ==> {
            let f = factor_of(
                usd_of(ctx.sol_account_lamports - withdraw_sol_amount, price as int),
                ctx.config.liquidation_threshold as int,
                ctx.collateral.minted_amount - burn_tokens_amount,
            );
            &&& redeem_result(ctx, withdraw_sol_amount, burn_tokens_amount, now) is Ok <==> f
                >= ctx.config.min_health_factor
            &&& f < ctx.config.min_health_factor ==> redeem_result(
                ctx,
                withdraw_sol_amount,
                burn_tokens_amount,
                now,
            ) == Err::<Collateral, StablecoinError>(
                StablecoinError::Program(ErrorCode::BelowMinimumHealthFactor),
            )
        },
        oracle_price(ctx.price_update, now) matches Err(e) ==> redeem_result(
            ctx,
            withdraw_sol_amount,
            burn_tokens_amount,
            now,
        ) == Err::<Collateral, StablecoinError>(e),
        redeem_result(ctx, withdraw_sol_amount, burn_tokens_amount, now) matches Ok(c) ==> c == (Collateral {
            collateral_amount: (ctx.sol_account_lamports - withdraw_sol_amount) as u64,
            minted_amount: (ctx.collateral.minted_amount - burn_tokens_amount) as u64,
            ..ctx.collateral
        }),
{
    let c = crate::instructions::redeemed(ctx, withdraw_sol_amount, burn_tokens_amount);
    health_is_exact(c, ctx.config, ctx.price_update, now, 0);
}

/// A liquidation at a readable price is refused as above the minimum exactly
/// when the position's health factor is at least the configured minimum;
/// below it, it pays the lamport value of the burnt tokens plus the bonus
/// percentage of that value.
pub proof fn liquidation_is_exact(ctx: Liquidate, amount_to_burn: u64, now: i64)
    requires
        oracle_price(ctx.price_update, now) matches Ok(price) ==> usd_of(
            ctx.collateral.collateral_amount as int,
            price as int,
        ) * ctx.config.liquidation_threshold <= u64::MAX,
    ensures
        oracle_price(ctx.price_update, now) matches Ok(price) ==> {
            let f = factor_of(
                usd_of(ctx.collateral.collateral_amount as int, price as int),
                ctx.config.liquidation_threshold as int,
                ctx.collateral.minted_amount as int,
            );
            let repaid = lamports_of(amount_to_burn as int, price as int);
            let payout = repaid + repaid * ctx.config.liquidation_bonus / 100;
            &&& f >= ctx.config.min_health_factor ==> liquidate_result(ctx, amount_to_burn, now) == Err::<
                u64,
                StablecoinError,
            >(StablecoinError::Program(ErrorCode::AboveMinimumHealthFactor))
            &&& f < ctx.config.min_health_factor && payout <= u64::MAX ==> liquidate_result(
                ctx,
                amount_to_burn,
                now,
            ) == Ok::<u64, StablecoinError>(payout as u64)
        },
        oracle_price(ctx.price_update, now) matches Err(e) ==> liquidate_result(ctx, amount_to_burn, now)
            == Err::<u64, StablecoinError>(e),
{
    health_is_exact(ctx.collateral, ctx.config, ctx.price_update, now, amount_to_burn);
}

/// Settling a liquidation records the vault's balance as the collateral and
/// removes exactly the burnt tokens from the debt; nothing else changes.
pub proof fn settlement_is_exact(collateral: Collateral, sol_account_lamports: u64, amount_burned: u64)
    requires
        amount_burned <= collateral.minted_amount,
    ensures
        liquidated(collateral, sol_account_lamports, amount_burned).collateral_amount == sol_account_lamports,
        liquidated(collateral, sol_account_lamports, amount_burned).minted_amount + amount_burned
            == collateral.minted_amount,
        liquidated(collateral, sol_account_lamports, amount_burned).depositor == collateral.depositor,
        liquidated(collateral, sol_account_lamports, amount_burned).sol_account == collateral.sol_account,
        liquidated(collateral, sol_account_lamports, amount_burned).token_account == collateral.token_account,
        liquidated(collateral, sol_account_lamports, amount_burned).bump == collateral.bump,
        liquidated(collateral, sol_account_lamports, amount_burned).bump_sol_account
            == collateral.bump_sol_account,
        liquidated(collateral, sol_account_lamports, amount_burned).is_initialized
            == collateral.is_initialized,
{
}

/// A new configuration takes its authority, mint and bumps from the creation
/// and starts with a 50% threshold, a 10% bonus and a minimum health factor of 1.
pub proof fn initial_config_is_exact(ctx: InitConfig)
    ensures
        initial_config(ctx).authority == ctx.authority,
        initial_config(ctx).mint == ctx.mint,
        initial_config(ctx).bump == ctx.config_bump,
        initial_config(ctx).bump_mint == ctx.mint_bump,
        initial_config(ctx).liquidation_threshold == 50,
        initial_config(ctx).liquidation_bonus == 10,
        initial_config(ctx).min_health_factor == 1,
{
}

} // verus!
