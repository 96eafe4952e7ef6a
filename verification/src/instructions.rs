use vstd::prelude::*;

use crate::constants::{LIQUIDATION_BONUS, LIQUIDATION_THRESHOLD, MIN_HEALTH_FACTOR, PERCENT};
use crate::error::{ErrorCode, StablecoinError};
use crate::health::{
    calculate_health_factor, check_health_factor, get_lamports_from_usd, health_check,
    health_factor_fits, health_factor_of, lamports_value_of,
};
use crate::oracle::PriceUpdate;
use crate::state::{Collateral, Config};

verus! {

/// What creating the configuration reads: the signer that becomes its
/// authority, the mint it is created with, and the bumps of both addresses.
#[derive(Debug, Clone, Copy, PartialEq, Eq)]
pub struct InitConfig {
    pub authority: [u8; 32],
    pub mint: [u8; 32],
    pub config_bump: u8,
    pub mint_bump: u8,
}

/// What updating the configuration reads and writes.
#[derive(Debug, Clone, Copy, PartialEq, Eq)]
pub struct UpdateConfig {
    pub config: Config,
}

/// What a deposit reads: the depositor, the configuration, the depositor's
/// position and vault (with the addresses' bumps), its token account and the
/// price update.
#[derive(Debug, Clone, Copy, PartialEq, Eq)]
pub struct DepositAndMint {
    pub depositor: [u8; 32],
    pub config: Config,
    pub collateral: Collateral,
    pub collateral_bump: u8,
    pub sol_account: [u8; 32],
    pub sol_account_lamports: u64,
    pub sol_account_bump: u8,
    pub token_account: [u8; 32],
    pub price_update: PriceUpdate,
}

/// What a redemption reads: the configuration, the depositor's position, the
/// lamports in its vault and the price update.
#[derive(Debug, Clone, Copy, PartialEq, Eq)]
pub struct RedeemCollateralAndBurnTokens {
    pub config: Config,
    pub collateral: Collateral,
    pub sol_account_lamports: u64,
    pub price_update: PriceUpdate,
}

/// What a liquidation reads: the configuration, the position to liquidate and
/// the price update.
#[derive(Debug, Clone, Copy, PartialEq, Eq)]
pub struct Liquidate {
    pub config: Config,
    pub collateral: Collateral,
    pub price_update: PriceUpdate,
}

/// The configuration that creation writes.
pub open spec fn initial_config(ctx: InitConfig) -> Config {
    Config {
        authority: ctx.authority,
        mint: ctx.mint,
        bump: ctx.config_bump,
        bump_mint: ctx.mint_bump,
        liquidation_threshold: LIQUIDATION_THRESHOLD,
        liquidation_bonus: LIQUIDATION_BONUS,
        min_health_factor: MIN_HEALTH_FACTOR,
    }
}

/// The position after a deposit of `amount_collateral` lamports and a mint of
/// `amount_to_mint` tokens; a position's first deposit also records its
/// owner, addresses and bumps.
pub open spec fn deposited(ctx: DepositAndMint, amount_collateral: u64, amount_to_mint: u64) -> Collateral {
    let c = ctx.collateral;
    Collateral {
        depositor: if c.is_initialized { c.depositor } else { ctx.depositor },
        sol_account: if c.is_initialized { c.sol_account } else { ctx.sol_account },
        token_account: if c.is_initialized { c.token_account } else { ctx.token_account },
        collateral_amount: (ctx.sol_account_lamports + amount_collateral) as u64,
        minted_amount: (c.minted_amount + amount_to_mint) as u64,
        bump: if c.is_initialized { c.bump } else { ctx.collateral_bump },
        bump_sol_account: if c.is_initialized { c.bump_sol_account } else { ctx.sol_account_bump },
        is_initialized: true,
    }
}

/// The position after `withdraw_sol_amount` lamports leave the vault and
/// `burn_tokens_amount` tokens are burnt.
pub open spec fn redeemed(
    ctx: RedeemCollateralAndBurnTokens,
    withdraw_sol_amount: u64,
    burn_tokens_amount: u64,
) -> Collateral {
    Collateral {
        collateral_amount: (ctx.sol_account_lamports - withdraw_sol_amount) as u64,
        minted_amount: (ctx.collateral.minted_amount - burn_tokens_amount) as u64,
        ..ctx.collateral
    }
}

/// The position after a liquidation that burnt `amount_burned` tokens and
/// left `sol_account_lamports` in the vault.
pub open spec fn liquidated(collateral: Collateral, sol_account_lamports: u64, amount_burned: u64) -> Collateral {
    Collateral {
        collateral_amount: sol_account_lamports,
        minted_amount: (collateral.minted_amount - amount_burned) as u64,
        ..collateral
    }
}

/// A position is accepted only where it passes the health check.
pub open spec fn if_healthy(
    collateral: Collateral,
    config: Config,
    update: PriceUpdate,
    now: i64,
) -> Result<Collateral, StablecoinError> {
    match health_check(collateral, config, update, now) {
        Ok(_) => Ok(collateral),
        Err(e) => Err(e),
    }
}

/// Outcome of a deposit: the new position, where it is healthy.
pub open spec fn deposit_and_mint_result(
    ctx: DepositAndMint,
    amount_collateral: u64,
    amount_to_mint: u64,
    now: i64,
) -> Result<Collateral, StablecoinError> {
    if_healthy(deposited(ctx, amount_collateral, amount_to_mint), ctx.config, ctx.price_update, now)
}

/// Outcome of a redemption: the new position, where it is healthy.
pub open spec fn redeem_result(
    ctx: RedeemCollateralAndBurnTokens,
    withdraw_sol_amount: u64,
    burn_tokens_amount: u64,
    now: i64,
) -> Result<Collateral, StablecoinError> {
    if_healthy(redeemed(ctx, withdraw_sol_amount, burn_tokens_amount), ctx.config, ctx.price_update, now)
}

/// Lamports that a liquidator receives for repaying `repaid` lamports' worth
/// of tokens: the repaid value plus the bonus.
pub open spec fn liquidation_payout(repaid: int, bonus: int) -> int {
    repaid + repaid * bonus / (PERCENT as int)
}

/// Outcome of a liquidation request: refused unless the position's health
/// factor is below the minimum; otherwise the lamports to move from the vault
/// to the liquidator.
pub open spec fn liquidate_result(ctx: Liquidate, amount_to_burn: u64, now: i64) -> Result<u64, StablecoinError> {
    match health_factor_of(ctx.collateral, ctx.config, ctx.price_update, now) {
        Err(e) => Err(e),
        Ok(factor) => if factor >= ctx.config.min_health_factor {
            Err(StablecoinError::Program(ErrorCode::AboveMinimumHealthFactor))
        } else {
            match lamports_value_of(amount_to_burn, ctx.price_update, now) {
                Err(e) => Err(e),
                Ok(lamports) => Ok(liquidation_payout(lamports as int, ctx.config.liquidation_bonus as int) as u64),
            }
        },
    }
}

/// Computing the health factor stays within the integer types, and, where the
/// position is below the minimum so that a payout is computed, so does the payout.
pub open spec fn liquidation_fits(ctx: Liquidate, amount_to_burn: u64, now: i64) -> bool {
    &&& health_factor_fits(ctx.collateral, ctx.config, ctx.price_update, now)
    &&& (health_factor_of(ctx.collateral, ctx.config, ctx.price_update, now) matches Ok(factor)
        && factor < ctx.config.min_health_factor) ==> (lamports_value_of(
        amount_to_burn,
        ctx.price_update,
        now,
    ) matches Ok(lamports) ==> {
        &&& lamports * ctx.config.liquidation_bonus <= u64::MAX
        &&& liquidation_payout(lamports as int, ctx.config.liquidation_bonus as int) <= u64::MAX
    })
}

/// Creates the configuration with the default threshold, bonus and minimum
/// health factor.
pub fn process_initialize_config(ctx: &InitConfig) -> (config: Config)
    ensures
        config == initial_config(*ctx),
{
    Config {
        authority: ctx.authority,
        mint: ctx.mint,
        bump: ctx.config_bump,
        bump_mint: ctx.mint_bump,
        liquidation_threshold: LIQUIDATION_THRESHOLD,
        liquidation_bonus: LIQUIDATION_BONUS,
        min_health_factor: MIN_HEALTH_FACTOR,
    }
}

/// Sets the minimum health factor; nothing else changes.
pub fn process_update_config(ctx: &mut UpdateConfig, min_health_factor: u64)
    ensures
        final(ctx).config == (Config { min_health_factor, ..old(ctx).config }),
{
    ctx.config.min_health_factor = min_health_factor;
}

/// Deposits `amount_collateral` lamports and mints `amount_to_mint` tokens.
/// On success the caller stores the returned position, moves the lamports
/// from the depositor to the vault and mints the tokens to the depositor's
/// token account; on failure nothing changes.
pub fn process_deposit_and_mint(
    ctx: &DepositAndMint,
    amount_collateral: u64,
    amount_to_mint: u64,
    now: i64,
) -> (r: Result<Collateral, StablecoinError>)
    requires
        ctx.sol_account_lamports + amount_collateral <= u64::MAX,
        ctx.collateral.minted_amount + amount_to_mint <= u64::MAX,
        health_factor_fits(
            deposited(*ctx, amount_collateral, amount_to_mint),
            ctx.config,
            ctx.price_update,
            now,
        ),
    ensures
        r == deposit_and_mint_result(*ctx, amount_collateral, amount_to_mint, now),
{
    let mut collateral = ctx.collateral;
    collateral.collateral_amount = ctx.sol_account_lamports + amount_collateral;
    collateral.minted_amount = collateral.minted_amount + amount_to_mint;
    if !collateral.is_initialized {
        collateral.is_initialized = true;
        collateral.depositor = ctx.depositor;
        collateral.sol_account = ctx.sol_account;
        collateral.token_account = ctx.token_account;
        collateral.bump = ctx.collateral_bump;
        collateral.bump_sol_account = ctx.sol_account_bump;
    }
    assert(collateral == deposited(*ctx, amount_collateral, amount_to_mint));
    match check_health_factor(&collateral, &ctx.config, &ctx.price_update, now) {
        Ok(()) => Ok(collateral),
        Err(e) => Err(e),
    }
}

/// Withdraws `withdraw_sol_amount` lamports and burns `burn_tokens_amount`
/// tokens. On success the caller stores the returned position, burns the
/// tokens from the depositor's token account and moves the lamports from the
/// vault to the depositor; on failure nothing changes.
pub fn process_redeem_collateral_and_burn_tokens(
    ctx: &RedeemCollateralAndBurnTokens,
    withdraw_sol_amount: u64,
    burn_tokens_amount: u64,
    now: i64,
) -> (r: Result<Collateral, StablecoinError>)
    requires
        withdraw_sol_amount <= ctx.sol_account_lamports,
        burn_tokens_amount <= ctx.collateral.minted_amount,
        health_factor_fits(
            redeemed(*ctx, withdraw_sol_amount, burn_tokens_amount),
            ctx.config,
            ctx.price_update,
            now,
        ),
    ensures
        r == redeem_result(*ctx, withdraw_sol_amount, burn_tokens_amount, now),
{
    let mut collateral = ctx.collateral;
    collateral.collateral_amount = ctx.sol_account_lamports - withdraw_sol_amount;
    collateral.minted_amount = collateral.minted_amount - burn_tokens_amount;
    assert(collateral == redeemed(*ctx, withdraw_sol_amount, burn_tokens_amount));
    match check_health_factor(&collateral, &ctx.config, &ctx.price_update, now) {
        Ok(()) => Ok(collateral),
        Err(e) => Err(e),
    }
}

/// Decides a liquidation that repays `amount_to_burn` tokens of an unhealthy
/// position: the lamports that the liquidator receives from the vault, the
/// repaid value plus the bonus. On success the caller moves those lamports,
/// burns the liquidator's tokens and then settles the position with
/// [`settle_liquidation`].
pub fn process_liquidate(ctx: &Liquidate, amount_to_burn: u64, now: i64) -> (r: Result<u64, StablecoinError>)
    requires
        liquidation_fits(*ctx, amount_to_burn, now),
    ensures
        r == liquidate_result(*ctx, amount_to_burn, now),
{
    let health_factor = match calculate_health_factor(&ctx.collateral, &ctx.config, &ctx.price_update, now) {
        Ok(h) => h,
        Err(e) => return Err(e),
    };
    if health_factor >= ctx.config.min_health_factor {
        return Err(StablecoinError::Program(ErrorCode::AboveMinimumHealthFactor));
    }
    let lamports = match get_lamports_from_usd(amount_to_burn, &ctx.price_update, now) {
        Ok(l) => l,
        Err(e) => return Err(e),
    };
    let liquidation_bonus = lamports * ctx.config.liquidation_bonus / PERCENT;
    let amount_to_liquidate = lamports + liquidation_bonus;
    Ok(amount_to_liquidate)
}

/// Records a carried-out liquidation: the vault now holds
/// `sol_account_lamports` and `amount_burned` tokens are no longer owed.
pub fn settle_liquidation(collateral: &mut Collateral, sol_account_lamports: u64, amount_burned: u64)
    requires
        amount_burned <= old(collateral).minted_amount,
    ensures
        *final(collateral) == liquidated(*old(collateral), sol_account_lamports, amount_burned),
{
    collateral.collateral_amount = sol_account_lamports;
    collateral.minted_amount = collateral.minted_amount - amount_burned;
}

} // verus!
