//! Events the locker reports for each action on a lock.
use vstd::prelude::*;
use crate::pubkey::Pubkey;

verus! {

/// A new lock was created.
#[derive(Clone, Debug, PartialEq, Eq)]
pub struct OnNewLock {
    pub lock_id: u64,
    pub amm_id: Pubkey,
    pub owner: Pubkey,
    pub amount: u64,
    pub lock_date: i64,
    pub unlock_date: i64,
    pub country_code: u8,
    pub pc_token_name: String,
    pub pc_token_symbol: String,
    pub pc_token_decimals: u8,
    pub pc_mint: Pubkey,
    pub coin_token_name: String,
    pub coin_token_symbol: String,
    pub coin_token_decimals: u8,
    pub coin_mint: Pubkey,
    pub amm_real_liquidity: u64,
    pub amm_real_pc_reserve: u64,
    pub amm_real_coin_reserve: u64,
}

/// A lock's unlock date was extended.
#[derive(Clone, Copy, Debug, PartialEq, Eq)]
pub struct OnRelock {
    pub lock_id: u64,
    pub lp_token: Pubkey,
    pub owner: Pubkey,
    pub amount_remaining_in_lock: u64,
    pub liquidity_fee: u64,
    pub unlock_date: i64,
}

/// Tokens were withdrawn from a lock.
#[derive(Clone, Copy, Debug, PartialEq, Eq)]
pub struct OnWithdraw {
    pub lock_id: u64,
    pub lp_token: Pubkey,
    pub owner: Pubkey,
    pub amount_remaining_in_lock: u64,
    pub amount_removed: u64,
}

/// Tokens were added to a lock.
#[derive(Clone, Copy, Debug, PartialEq, Eq)]
pub struct OnIncrementLock {
    pub lock_id: u64,
    pub lp_token: Pubkey,
    pub owner: Pubkey,
    pub entity: Pubkey,
    pub amount_remaining_in_lock: u64,
    pub amount_added: u64,
    pub liquidity_fee: u64,
}

/// Part of a lock was split off into a new lock.
#[derive(Clone, Copy, Debug, PartialEq, Eq)]
pub struct OnSplitLock {
    pub lock_id: u64,
    pub old_lock_id: u64,
    pub lp_token: Pubkey,
    pub owner: Pubkey,
    pub amount_remaining_in_old_lock: u64,
    pub amount_removed: u64,
    pub unlock_date: i64,
}

/// A lock changed owner.
#[derive(Clone, Copy, Debug, PartialEq, Eq)]
pub struct OnTransferLockOwnership {
    pub lock_id: u64,
    pub lp_token: Pubkey,
    pub old_owner: Pubkey,
    pub new_owner: Pubkey,
}

/// Tokens of a lock were handed to a migrator.
#[derive(Clone, Copy, Debug, PartialEq, Eq)]
pub struct OnMigrate {
    pub lock_id: u64,
    pub lp_token: Pubkey,
    pub owner: Pubkey,
    pub amount_remaining_in_lock: u64,
    pub amount_migrated: u64,
    pub migration_option: u16,
}

} // verus!
