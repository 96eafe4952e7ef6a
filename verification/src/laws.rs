//! Properties that hold across the library's operations.
use vstd::arithmetic::div_mod::{
    lemma_div_by_multiple, lemma_div_is_ordered, lemma_div_is_ordered_by_denominator,
    lemma_div_pos_is_pos, lemma_fundamental_div_mod, lemma_small_mod,
};
use vstd::arithmetic::mul::{lemma_mul_inequality, lemma_mul_nonnegative};
use vstd::prelude::*;

use crate::constants::{FEED_ID, LAMPORTS_PER_SOL, PERCENT, PRICE_FEED_DECIMAL_ADJUSTMENT};
use crate::error::{ErrorCode, StablecoinError};
use crate::health::{
    health_check, health_factor, health_factor_fits, health_factor_of, lamports_value, lamports_value_of, low_u64,
    oracle_price, usd_value, usd_value_of,
};
use crate::instructions::{
    deposit_and_mint_result, deposited, liquidate_result, liquidation_fits, liquidation_payout, redeem_result,
    redeemed, DepositAndMint, Liquidate, RedeemCollateralAndBurnTokens,
};
use crate::oracle::{feed_id_of_hex, hex_digit, PriceUpdate};
use crate::state::{Collateral, Config};

verus! {

/// A deposit is accepted only where the resulting position's health factor
/// is at least the configured minimum.
pub proof fn accepted_deposit_is_healthy(ctx: DepositAndMint, amount_collateral: u64, amount_to_mint: u64, now: i64)
    ensures
        deposit_and_mint_result(ctx, amount_collateral, amount_to_mint, now) matches Ok(c) ==> {
            &&& c == deposited(ctx, amount_collateral, amount_to_mint)
            &&& health_factor_of(c, ctx.config, ctx.price_update, now) matches Ok(h)
            &&& h >= ctx.config.min_health_factor
        },
{
}

/// A redemption is accepted only where the resulting position's health
/// factor is at least the configured minimum.
pub proof fn accepted_redemption_is_healthy(
    ctx: RedeemCollateralAndBurnTokens,
    withdraw_sol_amount: u64,
    burn_tokens_amount: u64,
    now: i64,
)
    ensures
        redeem_result(ctx, withdraw_sol_amount, burn_tokens_amount, now) matches Ok(c) ==> {
            &&& c == redeemed(ctx, withdraw_sol_amount, burn_tokens_amount)
            &&& health_factor_of(c, ctx.config, ctx.price_update, now) matches Ok(h)
            &&& h >= ctx.config.min_health_factor
        },
{
}

/// A liquidation goes ahead only for a position whose health factor is below
/// the minimum, and it pays the liquidator the lamport value of the burnt
/// tokens plus the bonus: never less than that value.
pub proof fn liquidation_only_below_minimum(ctx: Liquidate, amount_to_burn: u64, now: i64)
    requires
        liquidation_fits(ctx, amount_to_burn, now),
    ensures
        liquidate_result(ctx, amount_to_burn, now) matches Ok(payout) ==> {
            &&& health_factor_of(ctx.collateral, ctx.config, ctx.price_update, now) matches Ok(h)
            &&& h < ctx.config.min_health_factor
            &&& lamports_value_of(amount_to_burn, ctx.price_update, now) matches Ok(repaid)
            &&& payout == liquidation_payout(repaid as int, ctx.config.liquidation_bonus as int)
            &&& payout >= repaid
        },
{
    if liquidate_result(ctx, amount_to_burn, now) is Ok {
        let repaid = lamports_value_of(amount_to_burn, ctx.price_update, now)->Ok_0;
        lemma_mul_nonnegative(repaid as int, ctx.config.liquidation_bonus as int);
        lemma_div_pos_is_pos(repaid * ctx.config.liquidation_bonus, PERCENT as int);
    }
}

/// Valuing lamports in USD and converting that value back to lamports never
/// yields more lamports than there were (where the value fits in `u64`).
pub proof fn conversion_never_gains_lamports(amount: u64, price: i64)
    requires
        price > 0,
        usd_value(amount as int, price as int) <= u64::MAX,
    ensures
        lamports_value(low_u64(usd_value(amount as int, price as int)), price as int) <= amount,
{
    let q = price * PRICE_FEED_DECIMAL_ADJUSTMENT;
    let d = LAMPORTS_PER_SOL as int;
    let usd = usd_value(amount as int, price as int);
    lemma_mul_nonnegative(amount as int, q);
    lemma_div_pos_is_pos(amount * q, d);
    lemma_small_mod(usd as nat, 0x1_0000_0000_0000_0000);
    lemma_fundamental_div_mod(amount * q, d);
    assert(usd * d <= amount * q) by (nonlinear_arith)
        requires
            amount * q == d * usd + (amount * q) % d,
            (amount * q) % d >= 0,
    ;
    lemma_div_is_ordered(usd * d, amount * q, q);
    lemma_div_by_multiple(amount as int, q);
}

/// A larger amount of lamports is never worth less.
pub proof fn usd_value_is_monotonic(smaller: u64, larger: u64, price: i64)
    requires
        smaller <= larger,
        price > 0,
    ensures
        usd_value(smaller as int, price as int) <= usd_value(larger as int, price as int),
{
    let q = price * PRICE_FEED_DECIMAL_ADJUSTMENT;
    lemma_mul_inequality(smaller as int, larger as int, q);
    lemma_div_is_ordered(smaller * q, larger * q, LAMPORTS_PER_SOL as int);
}

/// The same lamports are never worth less at a higher price.
pub proof fn usd_value_grows_with_price(amount: u64, price: i64, higher_price: i64)
    requires
        0 < price <= higher_price,
    ensures
        usd_value(amount as int, price as int) <= usd_value(amount as int, higher_price as int),
{
    let q = price * PRICE_FEED_DECIMAL_ADJUSTMENT;
    let higher_q = higher_price * PRICE_FEED_DECIMAL_ADJUSTMENT;
    lemma_mul_inequality(q, higher_q, amount as int);
    assert(amount * q <= amount * higher_q) by (nonlinear_arith)
        requires
            q * amount <= higher_q * amount,
    ;
    lemma_div_is_ordered(amount * q, amount * higher_q, LAMPORTS_PER_SOL as int);
}

/// More collateral value never lowers the health factor; more minted tokens
/// never raise it.
pub proof fn health_factor_is_monotonic(
    collateral_usd: u64,
    more_collateral_usd: u64,
    liquidation_threshold: u64,
    minted: u64,
    more_minted: u64,
)
    requires
        collateral_usd <= more_collateral_usd,
        0 < minted <= more_minted,
    ensures
        health_factor(collateral_usd as int, liquidation_threshold as int, minted as int)
            <= health_factor(more_collateral_usd as int, liquidation_threshold as int, minted as int),
        health_factor(collateral_usd as int, liquidation_threshold as int, more_minted as int)
            <= health_factor(collateral_usd as int, liquidation_threshold as int, minted as int),
{
    let t = liquidation_threshold as int;
    let p = PERCENT as int;
    lemma_mul_inequality(collateral_usd as int, more_collateral_usd as int, t);
    lemma_div_is_ordered(collateral_usd * t, more_collateral_usd * t, p);
    lemma_div_is_ordered(collateral_usd * t / p, more_collateral_usd * t / p, minted as int);
    lemma_mul_nonnegative(collateral_usd as int, t);
    lemma_div_pos_is_pos(collateral_usd * t, p);
    lemma_div_is_ordered_by_denominator(collateral_usd * t / p, minted as int, more_minted as int);
}

/// A position that owes nothing passes the health check whenever the price
/// can be read.
pub proof fn debt_free_position_is_healthy(collateral: Collateral, config: Config, update: PriceUpdate, now: i64)
    requires
        collateral.minted_amount == 0,
        oracle_price(update, now) is Ok,
    ensures
        health_check(collateral, config, update, now) == Ok::<(), StablecoinError>(()),
{
}

/// Redeeming exactly what was just deposited and minted brings the position's
/// amounts back to what they were.
pub proof fn redemption_undoes_deposit(ctx: DepositAndMint, amount_collateral: u64, amount_to_mint: u64)
    requires
        ctx.collateral.is_initialized,
        ctx.collateral.collateral_amount == ctx.sol_account_lamports,
        ctx.sol_account_lamports + amount_collateral <= u64::MAX,
        ctx.collateral.minted_amount + amount_to_mint <= u64::MAX,
    ensures
        redeemed(
            RedeemCollateralAndBurnTokens {
                config: ctx.config,
                collateral: deposited(ctx, amount_collateral, amount_to_mint),
                sol_account_lamports: (ctx.sol_account_lamports + amount_collateral) as u64,
                price_update: ctx.price_update,
            },
            amount_collateral,
            amount_to_mint,
        ) == ctx.collateral,
{
}

/// Where the discounted collateral value fits in `u64`, so does the health factor.
proof fn health_factor_fits_u64(collateral_usd: u64, liquidation_threshold: u64, minted: u64)
    requires
        collateral_usd * liquidation_threshold <= u64::MAX,
        minted > 0,
    ensures
        0 <= health_factor(collateral_usd as int, liquidation_threshold as int, minted as int) <= u64::MAX,
{
    let x = collateral_usd * liquidation_threshold;
    lemma_mul_nonnegative(collateral_usd as int, liquidation_threshold as int);
    lemma_div_pos_is_pos(x, PERCENT as int);
    lemma_div_is_ordered_by_denominator(x, 1, PERCENT as int);
    lemma_div_pos_is_pos(x / (PERCENT as int), minted as int);
    lemma_div_is_ordered_by_denominator(x / (PERCENT as int), 1, minted as int);
}

/// Adding collateral without minting never makes a position that passes the
/// health check fail it (where the larger value still fits in `u64`).
pub proof fn adding_collateral_keeps_position_healthy(ctx: DepositAndMint, amount_collateral: u64, now: i64)
    requires
        ctx.collateral.is_initialized,
        ctx.collateral.collateral_amount == ctx.sol_account_lamports,
        ctx.sol_account_lamports + amount_collateral <= u64::MAX,
        health_check(ctx.collateral, ctx.config, ctx.price_update, now) is Ok,
        health_factor_fits(deposited(ctx, amount_collateral, 0), ctx.config, ctx.price_update, now),
        oracle_price(ctx.price_update, now) matches Ok(price) ==> usd_value(
            ctx.sol_account_lamports + amount_collateral,
            price as int,
        ) <= u64::MAX,
    ensures
        deposit_and_mint_result(ctx, amount_collateral, 0, now) is Ok,
{
    let price = oracle_price(ctx.price_update, now)->Ok_0;
    let before = ctx.sol_account_lamports;
    let after = (ctx.sol_account_lamports + amount_collateral) as u64;
    usd_value_is_monotonic(before, after, price);
    let usd_before = usd_value(before as int, price as int);
    let usd_after = usd_value(after as int, price as int);
    lemma_mul_nonnegative(before as int, price * PRICE_FEED_DECIMAL_ADJUSTMENT);
    lemma_div_pos_is_pos(before * (price * PRICE_FEED_DECIMAL_ADJUSTMENT), LAMPORTS_PER_SOL as int);
    lemma_small_mod(usd_before as nat, 0x1_0000_0000_0000_0000);
    lemma_small_mod(usd_after as nat, 0x1_0000_0000_0000_0000);
    let minted = ctx.collateral.minted_amount;
    if minted > 0 {
        health_factor_is_monotonic(
            usd_before as u64,
            usd_after as u64,
            ctx.config.liquidation_threshold,
            minted,
            minted,
        );
        lemma_mul_inequality(usd_before, usd_after, ctx.config.liquidation_threshold as int);
        health_factor_fits_u64(usd_before as u64, ctx.config.liquidation_threshold, minted);
        health_factor_fits_u64(usd_after as u64, ctx.config.liquidation_threshold, minted);
    }
}

/// Burning tokens without withdrawing collateral never makes a position that
/// passes the health check fail it.
pub proof fn repaying_keeps_position_healthy(ctx: RedeemCollateralAndBurnTokens, burn_tokens_amount: u64, now: i64)
    requires
        ctx.collateral.collateral_amount == ctx.sol_account_lamports,
        burn_tokens_amount <= ctx.collateral.minted_amount,
        health_check(ctx.collateral, ctx.config, ctx.price_update, now) is Ok,
        health_factor_fits(ctx.collateral, ctx.config, ctx.price_update, now),
    ensures
        redeem_result(ctx, 0, burn_tokens_amount, now) is Ok,
{
    let usd = usd_value_of(ctx.collateral.collateral_amount, ctx.price_update, now)->Ok_0;
    let minted = ctx.collateral.minted_amount;
    let left = (minted - burn_tokens_amount) as u64;
    if left > 0 {
        health_factor_is_monotonic(usd, usd, ctx.config.liquidation_threshold, left, minted);
        health_factor_fits_u64(usd, ctx.config.liquidation_threshold, left);
        health_factor_fits_u64(usd, ctx.config.liquidation_threshold, minted);
    }
}

/// The configured feed id is well formed: reading a price never fails on it.
pub proof fn feed_id_is_well_formed()
    ensures
        feed_id_of_hex(FEED_ID@) is Ok,
{
    reveal_strlit("0xef0d8b6fda2ceba41da15d4095d1da392a0d2f8ed0c6c7bc0f4cfac8c280b56d");
    let digits = FEED_ID@.skip(2);
    assert forall|i: int| 0 <= i < digits.len() implies (#[trigger] hex_digit(digits[i])) is Some by {
        assert(digits[i] == FEED_ID@[i + 2]);
    }
}

/// Converting USD to lamports and that back to USD never yields more than the
/// starting value (where the lamport amount fits in `u64`).
pub proof fn usd_conversion_never_gains_value(amount: u64, price: i64)
    requires
        price > 0,
        lamports_value(amount as int, price as int) <= u64::MAX,
    ensures
        usd_value(low_u64(lamports_value(amount as int, price as int)), price as int) <= amount,
{
    let q = price * PRICE_FEED_DECIMAL_ADJUSTMENT;
    let d = LAMPORTS_PER_SOL as int;
    let lamports = lamports_value(amount as int, price as int);
    lemma_mul_nonnegative(amount as int, d);
    lemma_div_pos_is_pos(amount * d, q);
    lemma_small_mod(lamports as nat, 0x1_0000_0000_0000_0000);
    lemma_fundamental_div_mod(amount * d, q);
    assert(lamports * q <= amount * d) by (nonlinear_arith)
        requires
            amount * d == q * lamports + (amount * d) % q,
            (amount * d) % q >= 0,
    ;
    lemma_div_is_ordered(lamports * q, amount * d, d);
    lemma_div_by_multiple(amount as int, d);
}

/// A larger USD amount never buys fewer lamports.
pub proof fn lamports_value_is_monotonic(smaller: u64, larger: u64, price: i64)
    requires
        smaller <= larger,
        price > 0,
    ensures
        lamports_value(smaller as int, price as int) <= lamports_value(larger as int, price as int),
{
    let d = LAMPORTS_PER_SOL as int;
    lemma_mul_inequality(smaller as int, larger as int, d);
    lemma_div_is_ordered(smaller * d, larger * d, price * PRICE_FEED_DECIMAL_ADJUSTMENT);
}

/// The same USD amount never buys more lamports at a higher price.
pub proof fn lamports_value_falls_with_price(amount: u64, price: i64, higher_price: i64)
    requires
        0 < price <= higher_price,
    ensures
        lamports_value(amount as int, higher_price as int) <= lamports_value(amount as int, price as int),
{
    lemma_mul_nonnegative(amount as int, LAMPORTS_PER_SOL as int);
    lemma_div_is_ordered_by_denominator(
        amount * (LAMPORTS_PER_SOL as int),
        price * PRICE_FEED_DECIMAL_ADJUSTMENT,
        higher_price * PRICE_FEED_DECIMAL_ADJUSTMENT,
    );
}

/// A liquidator receives at least the repaid value and at most the repaid
/// value plus the bonus percentage of it; the payout never falls as the repaid
/// value or the bonus grows.
pub proof fn liquidation_payout_bounds(repaid: u64, more_repaid: u64, bonus: u64, more_bonus: u64)
    requires
        repaid <= more_repaid,
        bonus <= more_bonus,
    ensures
        repaid <= liquidation_payout(repaid as int, bonus as int),
        100 * liquidation_payout(repaid as int, bonus as int) <= repaid * (100 + bonus),
        liquidation_payout(repaid as int, bonus as int) <= liquidation_payout(more_repaid as int, more_bonus as int),
{
    let p = PERCENT as int;
    let x = repaid * bonus;
    lemma_mul_nonnegative(repaid as int, bonus as int);
    lemma_div_pos_is_pos(x, p);
    lemma_fundamental_div_mod(x, p);
    assert(100 * (x / p) <= x);
    assert(repaid * (100 + bonus) == 100 * repaid + x) by (nonlinear_arith)
        requires
            x == repaid * bonus,
    ;
    lemma_mul_inequality(repaid as int, more_repaid as int, bonus as int);
    lemma_mul_inequality(bonus as int, more_bonus as int, more_repaid as int);
    assert(more_repaid * bonus == bonus * more_repaid) by (nonlinear_arith);
    assert(more_repaid * more_bonus == more_bonus * more_repaid) by (nonlinear_arith);
    lemma_div_is_ordered(x, more_repaid * more_bonus, p);
}

/// A higher price never raises the payout for the same burnt amount (where
/// both lamport values fit in `u64`).
pub proof fn liquidation_payout_falls_with_price(amount_to_burn: u64, price: i64, higher_price: i64, bonus: u64)
    requires
        0 < price <= higher_price,
        lamports_value(amount_to_burn as int, price as int) <= u64::MAX,
    ensures
        liquidation_payout(low_u64(lamports_value(amount_to_burn as int, higher_price as int)), bonus as int)
            <= liquidation_payout(low_u64(lamports_value(amount_to_burn as int, price as int)), bonus as int),
{
    let low = lamports_value(amount_to_burn as int, higher_price as int);
    let high = lamports_value(amount_to_burn as int, price as int);
    lamports_value_falls_with_price(amount_to_burn, price, higher_price);
    lemma_mul_nonnegative(amount_to_burn as int, LAMPORTS_PER_SOL as int);
    lemma_div_pos_is_pos(amount_to_burn * (LAMPORTS_PER_SOL as int), higher_price * PRICE_FEED_DECIMAL_ADJUSTMENT);
    lemma_small_mod(low as nat, 0x1_0000_0000_0000_0000);
    lemma_small_mod(high as nat, 0x1_0000_0000_0000_0000);
    liquidation_payout_bounds(low as u64, high as u64, bonus, bonus);
}

/// A position at or above the minimum health factor is refused with
/// `AboveMinimumHealthFactor`, whatever amount is asked for.
pub proof fn healthy_position_is_not_liquidated(ctx: Liquidate, amount_to_burn: u64, now: i64)
    requires
        health_factor_of(ctx.collateral, ctx.config, ctx.price_update, now) matches Ok(h)
            && h >= ctx.config.min_health_factor,
    ensures
        liquidate_result(ctx, amount_to_burn, now) == Err::<u64, StablecoinError>(
            StablecoinError::Program(ErrorCode::AboveMinimumHealthFactor),
        ),
{
}

/// A position that owes nothing is never liquidated, for any amount and any
/// configuration, whenever the price can be read.
pub proof fn debt_free_position_is_never_liquidated(ctx: Liquidate, amount_to_burn: u64, now: i64)
    requires
        ctx.collateral.minted_amount == 0,
        oracle_price(ctx.price_update, now) is Ok,
    ensures
        liquidate_result(ctx, amount_to_burn, now) == Err::<u64, StablecoinError>(
            StablecoinError::Program(ErrorCode::AboveMinimumHealthFactor),
        ),
{
}

/// The health factor depends only on the collateral amount, the minted amount,
/// the threshold, the price update and the time.
pub proof fn health_factor_depends_only_on_amounts(
    collateral: Collateral,
    other: Collateral,
    config: Config,
    other_config: Config,
    update: PriceUpdate,
    now: i64,
)
    requires
        collateral.collateral_amount == other.collateral_amount,
        collateral.minted_amount == other.minted_amount,
        config.liquidation_threshold == other_config.liquidation_threshold,
    ensures
        health_factor_of(collateral, config, update, now) == health_factor_of(other, other_config, update, now),
{
}

/// More collateral and less debt never give a lower health factor; where the
/// price cannot be read both are refused alike. (Where the larger collateral's
/// USD value does not fit in `u64`, its low 64 bits are used and this fails.)
pub proof fn health_factor_of_is_monotonic(
    weaker: Collateral,
    stronger: Collateral,
    config: Config,
    update: PriceUpdate,
    now: i64,
)
    requires
        weaker.collateral_amount <= stronger.collateral_amount,
        weaker.minted_amount >= stronger.minted_amount,
        health_factor_fits(stronger, config, update, now),
        oracle_price(update, now) matches Ok(price) ==> usd_value(stronger.collateral_amount as int, price as int)
            <= u64::MAX,
    ensures
        match health_factor_of(weaker, config, update, now) {
            Ok(h) => health_factor_of(stronger, config, update, now) matches Ok(k) && h <= k,
            Err(e) => health_factor_of(stronger, config, update, now) == Err::<u64, StablecoinError>(e),
        },
{
    if oracle_price(update, now) is Ok {
        let price = oracle_price(update, now)->Ok_0;
        let t = config.liquidation_threshold;
        usd_value_is_monotonic(weaker.collateral_amount, stronger.collateral_amount, price);
        let usd_weak = usd_value(weaker.collateral_amount as int, price as int);
        let usd_strong = usd_value(stronger.collateral_amount as int, price as int);
        lemma_mul_nonnegative(weaker.collateral_amount as int, price * PRICE_FEED_DECIMAL_ADJUSTMENT);
        lemma_div_pos_is_pos(
            weaker.collateral_amount * (price * PRICE_FEED_DECIMAL_ADJUSTMENT),
            LAMPORTS_PER_SOL as int,
        );
        lemma_small_mod(usd_weak as nat, 0x1_0000_0000_0000_0000);
        lemma_small_mod(usd_strong as nat, 0x1_0000_0000_0000_0000);
        lemma_mul_inequality(usd_weak, usd_strong, t as int);
        if weaker.minted_amount > 0 {
            health_factor_fits_u64(usd_weak as u64, t, weaker.minted_amount);
            if stronger.minted_amount > 0 {
                health_factor_fits_u64(usd_strong as u64, t, stronger.minted_amount);
                health_factor_is_monotonic(
                    usd_weak as u64,
                    usd_strong as u64,
                    t,
                    stronger.minted_amount,
                    weaker.minted_amount,
                );
            }
        }
    }
}

/// Redeeming exactly what was just deposited and minted, from a position that
/// passed the health check before the deposit, is accepted and gives that
/// position back.
pub proof fn redeeming_a_deposit_is_accepted(ctx: DepositAndMint, amount_collateral: u64, amount_to_mint: u64, now: i64)
    requires
        ctx.collateral.is_initialized,
        ctx.collateral.collateral_amount == ctx.sol_account_lamports,
        ctx.sol_account_lamports + amount_collateral <= u64::MAX,
        ctx.collateral.minted_amount + amount_to_mint <= u64::MAX,
        health_check(ctx.collateral, ctx.config, ctx.price_update, now) is Ok,
    ensures
        redeem_result(
            RedeemCollateralAndBurnTokens {
                config: ctx.config,
                collateral: deposited(ctx, amount_collateral, amount_to_mint),
                sol_account_lamports: (ctx.sol_account_lamports + amount_collateral) as u64,
                price_update: ctx.price_update,
            },
            amount_collateral,
            amount_to_mint,
            now,
        ) == Ok::<Collateral, StablecoinError>(ctx.collateral),
{
    redemption_undoes_deposit(ctx, amount_collateral, amount_to_mint);
}

} // verus!
