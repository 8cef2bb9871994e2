//! Accounts of the instruction that hands a lock to a new owner.
use vstd::prelude::*;
use crate::accounts_ix::{check, raw, spec_raw};
use crate::error::{LockerError, UncxLpError};
use crate::pubkey::Pubkey;
use crate::state::token_lock::TokenLock;
use crate::state::user_info::{UserInfoAccount, UserLpInfoAccount};

verus! {

/// The lock, its owner's signature, and the tracking accounts of the old and the new owner.
#[derive(Clone, Debug, PartialEq, Eq)]
pub struct TransferLockOwnership {
    pub payer: Pubkey,
    pub lp_locker_acc: TokenLock,
    /// the signer, who must own the lock
    pub lock_owner: Pubkey,
    pub old_user_info_acc: UserInfoAccount,
    /// the old owner's tracker that lists the lock
    pub old_user_info_lp_tracker_acc: UserLpInfoAccount,
    /// the new owner's account for this pool (created if it did not exist)
    pub new_user_info_acc: UserInfoAccount,
    /// the new owner's current tracker (created if it did not exist)
    pub new_user_info_lp_tracker_acc: UserLpInfoAccount,
}

/// The bump seeds found for the accounts the transfer may create.
#[derive(Clone, Copy, Debug, PartialEq, Eq, Structural)]
pub struct TransferLockOwnershipBumps {
    pub new_user_info_acc: u8,
    pub new_user_info_lp_tracker_acc: u8,
}

impl TransferLockOwnership {
    /// The first constraint the accounts break, in the order they are checked.
    pub open spec fn spec_validate(&self, locker_id: u64, new_owner: Pubkey) -> Result<(), LockerError> {
        if self.lp_locker_acc.lock_global_id != locker_id {
            Err(spec_raw())
        } else if self.lp_locker_acc.lock_owner == new_owner {
            Err(spec_raw())
        } else if self.lock_owner != self.lp_locker_acc.lock_owner {
            Err(LockerError::Uncx(UncxLpError::OwnerMismatchError))
        } else {
            Ok(())
        }
    }

    /// The lock is the one named, the new owner differs from the current one, who signs.
    pub fn validate(&self, locker_id: u64, new_owner: Pubkey) -> (r: Result<(), LockerError>)
        ensures
            r == self.spec_validate(locker_id, new_owner),
    {
        check(self.lp_locker_acc.lock_global_id == locker_id, raw())?;
        check(!(self.lp_locker_acc.lock_owner == new_owner), raw())?;
        check(self.lock_owner == self.lp_locker_acc.lock_owner, LockerError::Uncx(UncxLpError::OwnerMismatchError))
    }
}

} // verus!
