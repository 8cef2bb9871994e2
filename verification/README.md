# uncx_lp_locker

A verified core for the UNCX liquidity-provider token locker on Solana: users lock Raydium
AMM v4 liquidity tokens until an unlock date, paying fees natively, by burning a secondary
token, or not at all when whitelisted; locks can be extended, topped up, split, handed to a
new owner, withdrawn after expiry, or migrated.

- `src/` is the library, verified with Verus: the fee arithmetic (in `I80F48` fixed point),
  the decoding of Raydium pool accounts and the computation of a pool's true reserves, the
  configuration and lock accounts, the constraints each instruction puts on its accounts, and
  what each instruction does to them. `src/laws.rs` and `src/fee_laws.rs` state and prove the
  properties that span instructions.
- `app/` is the on-chain program around it: account validation by the framework, conversions
  between on-chain accounts and the library's values, the token and lamport transfers, the
  clock, and the events.
- `tests/` runs the library on concrete accounts.
