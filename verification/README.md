# bumpin_trade

The accounting of a perpetual-futures exchange on Solana, verified with
Verus: pools that lend liquidity to traders and mint shares to stakers,
markets with open interest and funding fees, and user accounts with token
balances, stakes, orders and isolated or cross-margin positions.

## Layout

- `src/` — the verified library.
  - `math.rs`, `calculator.rs`: checked arithmetic, fixed-point rates and
    token/USD conversions.
  - `state/`: the accounts (pools, markets, trade tokens, users and their
    slots) with their operations; `user_value.rs` values an account,
    `user_margin.rs` moves portfolio margin; `oracle.rs` and
    `oracle_map.rs` scale Pyth prices; `lookup.rs` finds accounts by key.
  - `processor/`: the instructions' logic — opening, closing and
    re-margining positions, executing orders, staking and unstaking,
    fees, and the keepers' rebalancing.
  - `utils/`: program-derived addresses and signer seeds.
- `tests/`: scenarios on concrete values.
- `app/`: the Solana side — token transfers through the SPL token program,
  the keeper's rebalancing payments, Pyth price accounts and the clock,
  program logs.

Every operation computes on copies of the accounts it is given and changes
them only when it succeeds. Token movements are returned as values
(`TokenTransfer`, `VaultTransfer`, `StableLossSwap`) for the caller to
perform.
