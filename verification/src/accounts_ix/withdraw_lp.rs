//! Accounts of the instruction that withdraws tokens from an expired lock.
use vstd::prelude::*;
use crate::accounts_ix::{check, raw, spec_raw, TokenAccountData};
use crate::error::{LockerError, UncxLpError};
use crate::pubkey::Pubkey;
use crate::state::configuration::ConfigurationAccount;
use crate::state::token_lock::TokenLock;
use crate::state::user_info::{UserInfoAccount, UserLpInfoAccount};

verus! {

/// The lock, its owner's signature, the locker's authority and vault, the configuration, the
/// owner's token account, and the owner's tracking accounts (needed when the lock empties).
#[derive(Clone, Debug, PartialEq, Eq)]
pub struct WithdrawLp {
    pub lp_locker_acc: TokenLock,
    /// the signer, who must own the lock
    pub lock_owner: Pubkey,
    pub uncx_authority_acc: Pubkey,
    pub uncx_lock_lp_vault_acc: TokenAccountData,
    pub config_account: ConfigurationAccount,
    /// where the withdrawn tokens go
    pub user_lp_token_acc: TokenAccountData,
    pub user_info_acc: Option<UserInfoAccount>,
    /// the owner's tracker that lists the lock
    pub user_info_lp_tracker_acc: Option<UserLpInfoAccount>,
}

impl WithdrawLp {
    /// The first constraint the accounts break, in the order they are checked, at time `now`.
    pub open spec fn spec_validate(&self, locker_id: u64, withdraw_amount: u64, now: i64) -> Result<(), LockerError> {
        if self.lp_locker_acc.lock_global_id != locker_id {
            Err(spec_raw())
        } else if self.lp_locker_acc.current_locked_amount < withdraw_amount {
            Err(LockerError::Uncx(UncxLpError::InsufficentLockBalanceForWithdrawalError))
        } else if withdraw_amount == 0 {
            Err(LockerError::Uncx(UncxLpError::InvalidWithdrawAmount))
        } else if now <= self.lp_locker_acc.unlock_date {
            Err(LockerError::Uncx(UncxLpError::LpStillLockedError))
        } else if self.lock_owner != self.lp_locker_acc.lock_owner {
            Err(LockerError::Uncx(UncxLpError::OwnerMismatchError))
        } else if self.uncx_authority_acc != self.config_account.uncx_authority_pda_address {
            Err(spec_raw())
        } else {
            Ok(())
        }
    }

    /// The lock is the one named, holds the amount, which is not zero, and has expired; its
    /// owner signs; the authority is the locker's.
    pub fn validate(&self, locker_id: u64, withdraw_amount: u64, now: i64) -> (r: Result<(), LockerError>)
        ensures
            r == self.spec_validate(locker_id, withdraw_amount, now),
    {
        check(self.lp_locker_acc.lock_global_id == locker_id, raw())?;
        check(
            self.lp_locker_acc.current_locked_amount >= withdraw_amount,
            LockerError::Uncx(UncxLpError::InsufficentLockBalanceForWithdrawalError),
        )?;
        check(withdraw_amount > 0, LockerError::Uncx(UncxLpError::InvalidWithdrawAmount))?;
        check(now > self.lp_locker_acc.unlock_date, LockerError::Uncx(UncxLpError::LpStillLockedError))?;
        check(self.lock_owner == self.lp_locker_acc.lock_owner, LockerError::Uncx(UncxLpError::OwnerMismatchError))?;
        check(self.uncx_authority_acc == self.config_account.uncx_authority_pda_address, raw())
    }
}

} // verus!
