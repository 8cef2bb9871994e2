//! Verified core of the UNCX liquidity-provider token locker.
pub mod accounts_ix;
pub mod constants;
pub mod error;
pub mod fees;
pub mod fee_laws;
pub mod fixed_point;
pub mod instructions;
pub mod laws;
pub mod le_bytes;
pub mod metadata;
pub mod pubkey;
pub mod raydium_port;
pub mod state;
pub mod uncx_solana_lp_locker;
pub mod utils;
