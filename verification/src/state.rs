use vstd::prelude::*;

verus! {

/// The program's global configuration. Keys are the 32 bytes of an address.
#[derive(Debug, Clone, Copy, PartialEq, Eq)]
pub struct Config {
    pub authority: [u8; 32],
    pub mint: [u8; 32],
    pub bump: u8,
    pub bump_mint: u8,
    /// Percent of the collateral value that backs minted tokens.
    pub liquidation_threshold: u64,
    /// Percent bonus that a liquidator receives on top of the repaid value.
    pub liquidation_bonus: u64,
    pub min_health_factor: u64,
}

/// One depositor's position: the lamports locked in its vault and the tokens
/// minted against them.
#[derive(Debug, Clone, Copy, PartialEq, Eq)]
pub struct Collateral {
    pub depositor: [u8; 32],
    pub sol_account: [u8; 32],
    pub token_account: [u8; 32],
    pub collateral_amount: u64,
    pub minted_amount: u64,
    pub bump: u8,
    pub bump_sol_account: u8,
    pub is_initialized: bool,
}

} // verus!
