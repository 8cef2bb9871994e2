//! Accounts of the instruction that splits part of a lock into a new lock.
use vstd::prelude::*;
use crate::accounts_ix::{check, raw, spec_raw};
use crate::error::{LockerError, UncxLpError};
use crate::pubkey::Pubkey;
use crate::state::configuration::ConfigurationAccount;
use crate::state::token_lock::TokenLock;
use crate::state::user_info::{UserInfoAccount, UserLpInfoAccount};

verus! {

/// The lock split, the new lock, the owner's signature, the dev wallet, the configuration and
/// the owner's tracking accounts.
#[derive(Clone, Debug, PartialEq, Eq)]
pub struct SplitLock {
    pub payer: Pubkey,
    pub lp_locker_acc: TokenLock,
    /// the new, zero-filled lock account
    pub new_lp_locker_acc: TokenLock,
    /// the signer, who must own the lock
    pub lock_owner: Pubkey,
    /// the wallet the split fee goes to
    pub dev_wallet: Pubkey,
    pub config_account: ConfigurationAccount,
    pub user_info_acc: UserInfoAccount,
    /// the owner's current tracker (created if it did not exist)
    pub user_info_lp_tracker_acc: UserLpInfoAccount,
}

/// The bump seeds found for the accounts the split creates.
#[derive(Clone, Copy, Debug, PartialEq, Eq, Structural)]
pub struct SplitLockBumps {
    pub new_lp_locker_acc: u8,
    pub user_info_lp_tracker_acc: u8,
}

impl SplitLock {
    /// The first constraint the accounts break, in the order they are checked.
    pub open spec fn spec_validate(&self, old_locker_id: u64, new_locker_locked_amount: u64) -> Result<(), LockerError> {
        if self.lp_locker_acc.lock_global_id != old_locker_id {
            Err(spec_raw())
        } else if self.lp_locker_acc.current_locked_amount < new_locker_locked_amount {
            Err(LockerError::Uncx(UncxLpError::InvalidWithdrawAmount))
        } else if new_locker_locked_amount == 0 {
            Err(LockerError::Uncx(UncxLpError::ZeroAmountError))
        } else if self.lock_owner != self.lp_locker_acc.lock_owner {
            Err(LockerError::Uncx(UncxLpError::OwnerMismatchError))
        } else if self.dev_wallet != self.config_account.config.dev_addr {
            Err(spec_raw())
        } else {
            Ok(())
        }
    }

    /// The lock is the one named and holds the amount split off, which is not zero; its owner
    /// signs; the fee goes to the dev wallet.
    pub fn validate(&self, old_locker_id: u64, new_locker_locked_amount: u64) -> (r: Result<(), LockerError>)
        ensures
            r == self.spec_validate(old_locker_id, new_locker_locked_amount),
    {
        check(self.lp_locker_acc.lock_global_id == old_locker_id, raw())?;
        check(
            self.lp_locker_acc.current_locked_amount >= new_locker_locked_amount,
            LockerError::Uncx(UncxLpError::InvalidWithdrawAmount),
        )?;
        check(new_locker_locked_amount > 0, LockerError::Uncx(UncxLpError::ZeroAmountError))?;
        check(self.lock_owner == self.lp_locker_acc.lock_owner, LockerError::Uncx(UncxLpError::OwnerMismatchError))?;
        check(self.dev_wallet == self.config_account.config.dev_addr, raw())
    }
}

} // verus!
