# stablecoin

A verified core for an over-collateralised stablecoin on Solana. A depositor
locks SOL in a vault and mints tokens against it; every deposit and redemption
must leave the position's health factor (collateral value at the SOL/USD
oracle price, discounted by the liquidation threshold, per minted token) at or
above the configured minimum, and only positions below it can be liquidated.

- `src/` — the library, verified with Verus:
  - `oracle.rs`: the price-update content, the feed-id and price reads (calls
    into `pyth-solana-receiver-sdk`) and what they return;
  - `health.rs`: USD and lamport conversions and the health factor;
  - `instructions.rs`: the decisions of each instruction, from the accounts'
    plain values to the new state and the amounts to move;
  - `laws.rs`: properties proved across those operations.
- `tests/` — tests on concrete values.
- `app/` — the Anchor program: account validation, clock and account reads,
  and the transfers, mints and burns that the library's decisions call for.
