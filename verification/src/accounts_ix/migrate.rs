//! Accounts of the instruction that hands a lock's tokens to a migrator.
use vstd::prelude::*;
use crate::accounts_ix::{check, raw, spec_raw, TokenAccountData};
use crate::error::{LockerError, UncxLpError};
use crate::pubkey::Pubkey;
use crate::state::configuration::{ConfigurationAccount, Migrator};
use crate::state::token_lock::TokenLock;
use crate::state::user_info::{UserInfoAccount, UserLpInfoAccount};

verus! {

/// The migrator's signature and marker, the lock, its owner's signature, the locker's authority
/// and vault, the configuration, the migrator's token account, and the owner's tracking accounts
/// (needed when the lock empties).
#[derive(Clone, Debug, PartialEq, Eq)]
pub struct MigrateLp {
    pub whitelisted_migrator_authority: Pubkey,
    pub migrator_marker_acc: Migrator,
    pub lp_locker_acc: TokenLock,
    /// the signer, who must own the lock
    pub lock_owner: Pubkey,
    pub uncx_authority_acc: Pubkey,
    pub uncx_lock_lp_vault_acc: TokenAccountData,
    pub config_account: ConfigurationAccount,
    /// where the migrated tokens go
    pub migrator_token_lp_account: TokenAccountData,
    pub user_info_acc: Option<UserInfoAccount>,
    /// the owner's tracker that lists the lock
    pub user_info_lp_tracker_acc: Option<UserLpInfoAccount>,
}

impl MigrateLp {
    /// The first constraint the accounts break, in the order they are checked.
    pub open spec fn spec_validate(&self, locker_id: u64, migrate_amount: u64) -> Result<(), LockerError> {
        if self.lp_locker_acc.lock_global_id != locker_id {
            Err(spec_raw())
        } else if self.lp_locker_acc.current_locked_amount < migrate_amount {
            Err(LockerError::Uncx(UncxLpError::InsufficentLockBalanceForWithdrawalError))
        } else if migrate_amount == 0 {
            Err(LockerError::Uncx(UncxLpError::InvalidWithdrawAmount))
        } else if self.lock_owner != self.lp_locker_acc.lock_owner {
            Err(LockerError::Uncx(UncxLpError::OwnerMismatchError))
        } else if self.uncx_authority_acc != self.config_account.uncx_authority_pda_address {
            Err(spec_raw())
        } else {
            Ok(())
        }
    }

    /// The lock is the one named and holds the amount, which is not zero; its owner signs; the
    /// authority is the locker's.
    pub fn validate(&self, locker_id: u64, migrate_amount: u64) -> (r: Result<(), LockerError>)
        ensures
            r == self.spec_validate(locker_id, migrate_amount),
    {
        check(self.lp_locker_acc.lock_global_id == locker_id, raw())?;
        check(
            self.lp_locker_acc.current_locked_amount >= migrate_amount,
            LockerError::Uncx(UncxLpError::InsufficentLockBalanceForWithdrawalError),
        )?;
        check(migrate_amount > 0, LockerError::Uncx(UncxLpError::InvalidWithdrawAmount))?;
        check(self.lock_owner == self.lp_locker_acc.lock_owner, LockerError::Uncx(UncxLpError::OwnerMismatchError))?;
        check(self.uncx_authority_acc == self.config_account.uncx_authority_pda_address, raw())
    }
}

} // verus!
