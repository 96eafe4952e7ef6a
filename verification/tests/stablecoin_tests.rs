use stablecoin::constants::{LIQUIDATION_BONUS, LIQUIDATION_THRESHOLD, MAXIMUM_AGE, MIN_HEALTH_FACTOR};
use stablecoin::error::{ErrorCode, PriceFeedError, StablecoinError};
use stablecoin::health::{
    calculate_health_factor, check_health_factor, get_lamports_from_usd, get_usd_value,
    lamports_at_price, read_price, usd_value_at_price,
};
use stablecoin::instructions::{
    process_deposit_and_mint, process_initialize_config, process_liquidate,
    process_redeem_collateral_and_burn_tokens, process_update_config, settle_liquidation,
    DepositAndMint, InitConfig, Liquidate, RedeemCollateralAndBurnTokens, UpdateConfig,
};
use stablecoin::oracle::{PriceUpdate, VerificationLevel};
use stablecoin::state::{Collateral, Config};

const SOL: u64 = 1_000_000_000;
/// $150 with eight decimals.
const PRICE_150: i64 = 15_000_000_000;
const NOW: i64 = 1_000_000;

fn sol_usd_feed_id() -> [u8; 32] {
    let hex = "ef0d8b6fda2ceba41da15d4095d1da392a0d2f8ed0c6c7bc0f4cfac8c280b56d";
    let mut id = [0u8; 32];
    for i in 0..32 {
        id[i] = u8::from_str_radix(&hex[2 * i..2 * i + 2], 16).unwrap();
    }
    id
}

fn update(price: i64) -> PriceUpdate {
    PriceUpdate {
        verification_level: VerificationLevel::Full,
        feed_id: sol_usd_feed_id(),
        price,
        publish_time: NOW,
    }
}

fn config() -> Config {
    process_initialize_config(&InitConfig { authority: [7; 32], mint: [8; 32], config_bump: 254, mint_bump: 253 })
}

fn position(collateral_amount: u64, minted_amount: u64) -> Collateral {
    Collateral {
        depositor: [1; 32],
        sol_account: [2; 32],
        token_account: [3; 32],
        collateral_amount,
        minted_amount,
        bump: 250,
        bump_sol_account: 251,
        is_initialized: true,
    }
}

fn deposit_ctx(collateral: Collateral, sol_account_lamports: u64, price: i64) -> DepositAndMint {
    DepositAndMint {
        depositor: [1; 32],
        config: config(),
        collateral,
        collateral_bump: 250,
        sol_account: [2; 32],
        sol_account_lamports,
        sol_account_bump: 251,
        token_account: [3; 32],
        price_update: update(price),
    }
}

fn fresh_position() -> Collateral {
    Collateral {
        depositor: [0; 32],
        sol_account: [0; 32],
        token_account: [0; 32],
        collateral_amount: 0,
        minted_amount: 0,
        bump: 0,
        bump_sol_account: 0,
        is_initialized: false,
    }
}

#[test]
fn initialize_config_uses_defaults() {
    let c = config();
    assert_eq!(c.authority, [7; 32]);
    assert_eq!(c.mint, [8; 32]);
    assert_eq!(c.bump, 254);
    assert_eq!(c.bump_mint, 253);
    assert_eq!(c.liquidation_threshold, LIQUIDATION_THRESHOLD);
    assert_eq!(c.liquidation_bonus, LIQUIDATION_BONUS);
    assert_eq!(c.min_health_factor, MIN_HEALTH_FACTOR);
}

#[test]
fn update_config_changes_only_minimum() {
    let before = config();
    let mut ctx = UpdateConfig { config: before };
    process_update_config(&mut ctx, 3);
    assert_eq!(ctx.config, Config { min_health_factor: 3, ..before });
}

#[test]
fn read_price_accepts_fresh_verified_update() {
    assert_eq!(read_price(&update(PRICE_150), NOW), Ok(PRICE_150));
    // Published exactly MAXIMUM_AGE seconds ago is still fresh.
    assert_eq!(read_price(&update(PRICE_150), NOW + MAXIMUM_AGE as i64), Ok(PRICE_150));
}

#[test]
fn read_price_refuses_stale_update() {
    assert_eq!(
        read_price(&update(PRICE_150), NOW + MAXIMUM_AGE as i64 + 1),
        Err(StablecoinError::PriceFeed(PriceFeedError::PriceTooOld))
    );
}

#[test]
fn read_price_publish_time_saturates() {
    let mut u = update(PRICE_150);
    u.publish_time = i64::MAX - 1;
    assert_eq!(read_price(&u, i64::MAX), Ok(PRICE_150));
}

#[test]
fn read_price_refuses_other_feed() {
    let mut u = update(PRICE_150);
    u.feed_id[0] ^= 1;
    assert_eq!(read_price(&u, NOW), Err(StablecoinError::PriceFeed(PriceFeedError::MismatchedFeedId)));
}

#[test]
fn read_price_refuses_partial_verification() {
    let mut u = update(PRICE_150);
    u.verification_level = VerificationLevel::Partial { num_signatures: 255 };
    // The verification level is checked before the feed id.
    u.feed_id = [0; 32];
    assert_eq!(
        read_price(&u, NOW),
        Err(StablecoinError::PriceFeed(PriceFeedError::InsufficientVerificationLevel))
    );
}

#[test]
fn read_price_refuses_non_positive_price() {
    assert_eq!(read_price(&update(0), NOW), Err(StablecoinError::Program(ErrorCode::InvalidPrice)));
    assert_eq!(read_price(&update(-5), NOW), Err(StablecoinError::Program(ErrorCode::InvalidPrice)));
}

#[test]
fn usd_value_of_one_sol() {
    assert_eq!(usd_value_at_price(SOL, PRICE_150), 150 * SOL);
    assert_eq!(get_usd_value(SOL, &update(PRICE_150), NOW), Ok(150 * SOL));
    // 0.5 SOL at $123.45678901
    assert_eq!(usd_value_at_price(SOL / 2, 12_345_678_901), 61_728_394_505);
}

#[test]
fn usd_value_keeps_low_bits_when_too_large() {
    let price: i64 = 1_000_000_000_000;
    let exact = u64::MAX as u128 * (price as u128 * 10) / 1_000_000_000;
    assert!(exact > u64::MAX as u128);
    assert_eq!(usd_value_at_price(u64::MAX, price) as u128, exact % (1u128 << 64));
}

#[test]
fn lamports_from_usd() {
    assert_eq!(lamports_at_price(150 * SOL, PRICE_150), SOL);
    assert_eq!(get_lamports_from_usd(75 * SOL, &update(PRICE_150), NOW), Ok(SOL / 2));
    // $1 at $3 a SOL: a third of a SOL, rounded down.
    assert_eq!(lamports_at_price(SOL, 300_000_000), 333_333_333);
}

#[test]
fn lamports_from_usd_keeps_low_bits_when_too_large() {
    let exact = u64::MAX as u128 * 1_000_000_000 / 10;
    assert_eq!(lamports_at_price(u64::MAX, 1) as u128, exact % (1u128 << 64));
}

#[test]
fn lamports_from_usd_reports_price_errors() {
    assert_eq!(
        get_lamports_from_usd(SOL, &update(0), NOW),
        Err(StablecoinError::Program(ErrorCode::InvalidPrice))
    );
}

#[test]
fn health_factor_examples() {
    let cfg = config();
    let feed = update(PRICE_150);
    // 1 SOL at $150, half of it counts: 75 per 50 minted is 1 (rounded down).
    assert_eq!(calculate_health_factor(&position(SOL, 50 * SOL), &cfg, &feed, NOW), Ok(1));
    assert_eq!(calculate_health_factor(&position(SOL, 30 * SOL), &cfg, &feed, NOW), Ok(2));
    assert_eq!(calculate_health_factor(&position(SOL, 76 * SOL), &cfg, &feed, NOW), Ok(0));
    assert_eq!(calculate_health_factor(&position(SOL, 0), &cfg, &feed, NOW), Ok(u64::MAX));
}

#[test]
fn health_factor_reports_price_errors_even_without_debt() {
    let cfg = config();
    assert_eq!(
        calculate_health_factor(&position(SOL, 0), &cfg, &update(0), NOW),
        Err(StablecoinError::Program(ErrorCode::InvalidPrice))
    );
}

#[test]
fn check_health_factor_refuses_below_minimum() {
    let cfg = config();
    let feed = update(PRICE_150);
    assert_eq!(check_health_factor(&position(SOL, 75 * SOL), &cfg, &feed, NOW), Ok(()));
    assert_eq!(
        check_health_factor(&position(SOL, 76 * SOL), &cfg, &feed, NOW),
        Err(StablecoinError::Program(ErrorCode::BelowMinimumHealthFactor))
    );
}

#[test]
fn first_deposit_records_the_position() {
    let ctx = deposit_ctx(fresh_position(), 0, PRICE_150);
    let c = process_deposit_and_mint(&ctx, 2 * SOL, 100 * SOL, NOW).unwrap();
    assert_eq!(c, position(2 * SOL, 100 * SOL));
}

#[test]
fn later_deposit_keeps_recorded_addresses() {
    let mut old = position(SOL, 10 * SOL);
    old.bump = 9;
    let mut ctx = deposit_ctx(old, SOL, PRICE_150);
    ctx.depositor = [9; 32];
    ctx.collateral_bump = 1;
    let c = process_deposit_and_mint(&ctx, SOL, 5 * SOL, NOW).unwrap();
    assert_eq!(c.depositor, [1; 32]);
    assert_eq!(c.bump, 9);
    assert_eq!(c.collateral_amount, 2 * SOL);
    assert_eq!(c.minted_amount, 15 * SOL);
}

#[test]
fn deposit_uses_vault_balance_not_recorded_amount() {
    // The recorded amount is stale; the vault's balance counts.
    let ctx = deposit_ctx(position(5 * SOL, 0), 3 * SOL, PRICE_150);
    let c = process_deposit_and_mint(&ctx, SOL, 0, NOW).unwrap();
    assert_eq!(c.collateral_amount, 4 * SOL);
}

#[test]
fn deposit_refused_when_unhealthy() {
    let ctx = deposit_ctx(fresh_position(), 0, PRICE_150);
    assert_eq!(
        process_deposit_and_mint(&ctx, SOL, 76 * SOL, NOW),
        Err(StablecoinError::Program(ErrorCode::BelowMinimumHealthFactor))
    );
}

#[test]
fn deposit_refused_on_stale_price() {
    let ctx = deposit_ctx(fresh_position(), 0, PRICE_150);
    assert_eq!(
        process_deposit_and_mint(&ctx, SOL, SOL, NOW + 1_000),
        Err(StablecoinError::PriceFeed(PriceFeedError::PriceTooOld))
    );
}

fn redeem_ctx(collateral: Collateral, sol_account_lamports: u64) -> RedeemCollateralAndBurnTokens {
    RedeemCollateralAndBurnTokens {
        config: config(),
        collateral,
        sol_account_lamports,
        price_update: update(PRICE_150),
    }
}

#[test]
fn redeem_updates_position() {
    let ctx = redeem_ctx(position(2 * SOL, 100 * SOL), 2 * SOL);
    let c = process_redeem_collateral_and_burn_tokens(&ctx, SOL, 40 * SOL, NOW).unwrap();
    assert_eq!(c, position(SOL, 60 * SOL));
}

#[test]
fn redeem_everything() {
    let ctx = redeem_ctx(position(2 * SOL, 100 * SOL), 2 * SOL);
    let c = process_redeem_collateral_and_burn_tokens(&ctx, 2 * SOL, 100 * SOL, NOW).unwrap();
    assert_eq!(c, position(0, 0));
}

#[test]
fn redeem_refused_when_unhealthy() {
    let ctx = redeem_ctx(position(2 * SOL, 100 * SOL), 2 * SOL);
    assert_eq!(
        process_redeem_collateral_and_burn_tokens(&ctx, SOL, 0, NOW),
        Err(StablecoinError::Program(ErrorCode::BelowMinimumHealthFactor))
    );
}

#[test]
fn liquidation_refused_for_healthy_position() {
    let ctx = Liquidate { config: config(), collateral: position(SOL, 75 * SOL), price_update: update(PRICE_150) };
    assert_eq!(
        process_liquidate(&ctx, 10 * SOL, NOW),
        Err(StablecoinError::Program(ErrorCode::AboveMinimumHealthFactor))
    );
}

#[test]
fn liquidation_pays_value_plus_bonus() {
    let ctx = Liquidate { config: config(), collateral: position(SOL, 100 * SOL), price_update: update(PRICE_150) };
    // $15 is 0.1 SOL; the bonus adds 10%.
    assert_eq!(process_liquidate(&ctx, 15 * SOL, NOW), Ok(SOL / 10 + SOL / 100));
}

#[test]
fn liquidation_reports_price_errors() {
    let mut feed = update(PRICE_150);
    feed.verification_level = VerificationLevel::Partial { num_signatures: 1 };
    let ctx = Liquidate { config: config(), collateral: position(SOL, 100 * SOL), price_update: feed };
    assert_eq!(
        process_liquidate(&ctx, 15 * SOL, NOW),
        Err(StablecoinError::PriceFeed(PriceFeedError::InsufficientVerificationLevel))
    );
}

#[test]
fn settle_liquidation_records_vault_and_debt() {
    let mut c = position(SOL, 100 * SOL);
    settle_liquidation(&mut c, 89 * SOL / 100, 15 * SOL);
    assert_eq!(c, position(89 * SOL / 100, 85 * SOL));
}

#[test]
fn liquidation_can_restore_health() {
    let cfg = config();
    let feed = update(PRICE_150);
    let mut c = position(SOL, 100 * SOL);
    let ctx = Liquidate { config: cfg, collateral: c, price_update: feed };
    let paid = process_liquidate(&ctx, 60 * SOL, NOW).unwrap();
    assert_eq!(paid, 44 * SOL / 100);
    settle_liquidation(&mut c, SOL - paid, 60 * SOL);
    // 0.56 SOL is $84, half of which is 42 per 40 minted.
    assert_eq!(calculate_health_factor(&c, &cfg, &feed, NOW), Ok(1));
}

#[test]
fn law_conversion_never_gains_lamports() {
    for &(amount, price) in &[(SOL, PRICE_150), (123_456_789, 12_345_678_901), (7, 3), (u64::MAX / 1_000, 99_999)] {
        let usd = usd_value_at_price(amount, price);
        assert!(lamports_at_price(usd, price) <= amount);
    }
}

#[test]
fn law_redemption_undoes_deposit() {
    let before = position(2 * SOL, 50 * SOL);
    let ctx = deposit_ctx(before, 2 * SOL, PRICE_150);
    let after = process_deposit_and_mint(&ctx, 3 * SOL, 20 * SOL, NOW).unwrap();
    let back = process_redeem_collateral_and_burn_tokens(&redeem_ctx(after, 5 * SOL), 3 * SOL, 20 * SOL, NOW).unwrap();
    assert_eq!(back, before);
}

#[test]
fn law_adding_collateral_keeps_position_healthy() {
    let healthy = position(SOL, 75 * SOL);
    assert_eq!(check_health_factor(&healthy, &config(), &update(PRICE_150), NOW), Ok(()));
    let ctx = deposit_ctx(healthy, SOL, PRICE_150);
    assert!(process_deposit_and_mint(&ctx, 1, 0, NOW).is_ok());
}

#[test]
fn law_repaying_keeps_position_healthy() {
    let ctx = redeem_ctx(position(SOL, 75 * SOL), SOL);
    assert!(process_redeem_collateral_and_burn_tokens(&ctx, 0, 75 * SOL, NOW).is_ok());
    assert!(process_redeem_collateral_and_burn_tokens(&ctx, 0, 1, NOW).is_ok());
}

#[test]
fn law_debt_free_position_is_healthy() {
    let mut cfg = config();
    let mut ctx = UpdateConfig { config: cfg };
    process_update_config(&mut ctx, u64::MAX);
    cfg = ctx.config;
    assert_eq!(check_health_factor(&position(0, 0), &cfg, &update(PRICE_150), NOW), Ok(()));
}

#[test]
fn law_accepted_positions_are_healthy() {
    let ctx = deposit_ctx(fresh_position(), 0, PRICE_150);
    let c = process_deposit_and_mint(&ctx, SOL, 75 * SOL, NOW).unwrap();
    assert!(calculate_health_factor(&c, &ctx.config, &ctx.price_update, NOW).unwrap() >= ctx.config.min_health_factor);
}

#[test]
fn law_liquidation_only_below_minimum() {
    let cfg = config();
    let feed = update(PRICE_150);
    for minted in [50 * SOL, 75 * SOL, 76 * SOL, 200 * SOL] {
        let c = position(SOL, minted);
        let ctx = Liquidate { config: cfg, collateral: c, price_update: feed };
        let hf = calculate_health_factor(&c, &cfg, &feed, NOW).unwrap();
        match process_liquidate(&ctx, SOL, NOW) {
            Ok(paid) => {
                assert!(hf < cfg.min_health_factor);
                let repaid = get_lamports_from_usd(SOL, &feed, NOW).unwrap();
                assert_eq!(paid, repaid + repaid * cfg.liquidation_bonus / 100);
            }
            Err(e) => {
                assert!(hf >= cfg.min_health_factor);
                assert_eq!(e, StablecoinError::Program(ErrorCode::AboveMinimumHealthFactor));
            }
        }
    }
}

#[test]
fn law_usd_value_monotonic() {
    assert!(usd_value_at_price(SOL, PRICE_150) <= usd_value_at_price(SOL + 1, PRICE_150));
    assert!(usd_value_at_price(SOL, PRICE_150) <= usd_value_at_price(SOL, PRICE_150 + 1));
    assert!(usd_value_at_price(3, 7) <= usd_value_at_price(3, 8));
}

#[test]
fn law_health_factor_monotonic() {
    let cfg = config();
    let feed = update(PRICE_150);
    let hf = |c: u64, m: u64| calculate_health_factor(&position(c, m), &cfg, &feed, NOW).unwrap();
    assert!(hf(SOL, 30 * SOL) <= hf(2 * SOL, 30 * SOL));
    assert!(hf(SOL, 60 * SOL) <= hf(SOL, 30 * SOL));
    assert!(hf(SOL, 1) <= hf(SOL, 0));
}

#[test]
fn law_feed_id_is_well_formed() {
    // Any failure to read comes from the update, never from the configured feed id.
    let mut u = update(PRICE_150);
    u.feed_id = [0; 32];
    assert_eq!(read_price(&u, NOW), Err(StablecoinError::PriceFeed(PriceFeedError::MismatchedFeedId)));
}

#[test]
fn debt_free_position_is_never_liquidated_even_with_huge_bonus() {
    let mut cfg = config();
    cfg.liquidation_bonus = u64::MAX;
    let ctx = Liquidate { config: cfg, collateral: position(SOL, 0), price_update: update(100) };
    assert_eq!(
        process_liquidate(&ctx, 1_000_000_000_000, NOW),
        Err(StablecoinError::Program(ErrorCode::AboveMinimumHealthFactor))
    );
}

#[test]
fn healthy_position_is_not_liquidated_even_with_huge_bonus() {
    let mut cfg = config();
    cfg.liquidation_bonus = u64::MAX;
    let ctx = Liquidate { config: cfg, collateral: position(SOL, 75 * SOL), price_update: update(PRICE_150) };
    assert_eq!(
        process_liquidate(&ctx, u64::MAX, NOW),
        Err(StablecoinError::Program(ErrorCode::AboveMinimumHealthFactor))
    );
}

#[test]
fn law_usd_conversion_never_gains_value() {
    for &(usd, price) in &[(150 * SOL, PRICE_150), (SOL, 300_000_000), (7, 3), (123_456_789, 12_345_678_901)] {
        let lamports = lamports_at_price(usd, price);
        assert!(usd_value_at_price(lamports, price) <= usd);
    }
}

#[test]
fn law_lamports_value_monotonic() {
    assert!(lamports_at_price(SOL, PRICE_150) <= lamports_at_price(SOL + 1, PRICE_150));
    assert!(lamports_at_price(SOL, PRICE_150 + 1) <= lamports_at_price(SOL, PRICE_150));
    assert!(lamports_at_price(10, 7) <= lamports_at_price(10, 3));
}

#[test]
fn law_liquidation_payout_bounds_and_monotonic() {
    let mut cfg = config();
    let feed = update(PRICE_150);
    let payout = |cfg: Config, amount: u64, feed: PriceUpdate| {
        process_liquidate(&Liquidate { config: cfg, collateral: position(SOL, 100 * SOL), price_update: feed }, amount, NOW)
            .unwrap()
    };
    let repaid = get_lamports_from_usd(15 * SOL, &feed, NOW).unwrap();
    let a = payout(cfg, 15 * SOL, feed);
    assert!(repaid <= a);
    assert!(100 * a as u128 <= repaid as u128 * (100 + cfg.liquidation_bonus as u128));
    assert!(a <= payout(cfg, 16 * SOL, feed));
    assert!(payout(cfg, 15 * SOL, update(PRICE_150 + 1)) <= a);
    cfg.liquidation_bonus = 20;
    assert!(a <= payout(cfg, 15 * SOL, feed));
}

#[test]
fn law_health_factor_depends_only_on_amounts() {
    let cfg = config();
    let mut other_cfg = cfg;
    other_cfg.min_health_factor = 9;
    other_cfg.liquidation_bonus = 77;
    let mut other = position(SOL, 30 * SOL);
    other.depositor = [42; 32];
    other.bump = 1;
    let feed = update(PRICE_150);
    assert_eq!(
        calculate_health_factor(&position(SOL, 30 * SOL), &cfg, &feed, NOW),
        calculate_health_factor(&other, &other_cfg, &feed, NOW)
    );
}

#[test]
fn law_redeeming_a_deposit_is_accepted() {
    let before = position(SOL, 75 * SOL);
    let ctx = deposit_ctx(before, SOL, PRICE_150);
    let after = process_deposit_and_mint(&ctx, 2 * SOL, 100 * SOL, NOW).unwrap();
    assert_eq!(
        process_redeem_collateral_and_burn_tokens(&redeem_ctx(after, 3 * SOL), 2 * SOL, 100 * SOL, NOW),
        Ok(before)
    );
}
