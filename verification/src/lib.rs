//! Verified core of an over-collateralised stablecoin: users lock SOL as
//! collateral and mint tokens against it, as long as the position's health
//! factor (collateral value, discounted by the liquidation threshold, over the
//! minted amount) stays at or above the configured minimum.
//!
//! The library decides; the surrounding program performs the transfers, mints
//! and burns that the decisions call for.

pub mod constants;
pub mod error;
pub mod health;
pub mod instructions;
pub mod laws;
pub mod outcomes;
pub mod oracle;
pub mod state;
