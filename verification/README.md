# solana_dex_demo

A constant-product AMM (x * y = k) for Solana, in two programs that share one
verified core: a native program and an Anchor program.

- `src/math.rs` — swap quote with fee, LP minting (integer square root for the
  first deposit, proportional share afterwards), withdrawal amounts.
- `src/amm.rs` — the pool rules shared by both programs: quotes and
  settlements of deposits, withdrawals and swaps, the pool summary, and the
  laws they obey (consistency of reserves and LP supply, fairness of deposits
  and withdrawals, the constant product never decreasing).
- `src/state.rs`, `src/instruction.rs` — byte layouts of the native pool
  account and instruction data, with round-trip proofs.
- `src/processor.rs`, `src/error.rs`, `src/pda.rs` — the native program's
  decisions for each instruction; the pool authority address comes from the
  Solana SDK.
- `src/anchor_dex/` — the Anchor program's pool, errors and decisions.
- `app/` — the Solana entrypoints, account handling, token transfers and
  logging around the library.
