//! A lock of liquidity-provider tokens.
use vstd::prelude::*;
use crate::pubkey::Pubkey;

verus! {

/// One lock: who owns it, what is locked, how much and until when.
#[derive(Clone, Copy, Debug, PartialEq, Eq)]
pub struct TokenLock {
    pub bump: u8,
    /// the AMM pool id
    pub amm_id: Pubkey,
    /// the pool's liquidity-token mint
    pub lp_mint: Pubkey,
    /// global, incremental id of the lock
    pub lock_global_id: u64,
    /// unix timestamp at which the tokens were locked
    pub lock_date: i64,
    /// unix timestamp from which the tokens can be withdrawn
    pub unlock_date: i64,
    /// country code of the locker
    pub country_code: u8,
    /// amount locked when the lock was created
    pub initial_lock_amount: u64,
    /// amount locked now
    pub current_locked_amount: u64,
    /// who may withdraw once the lock has expired
    pub lock_owner: Pubkey,
}

/// Marker created once per AMM whose liquidity tokens were ever locked.
#[derive(Clone, Copy, Debug, PartialEq, Eq, Structural)]
pub struct GlobalLpMintMarker {
    pub bump: u8,
}

} // verus!
