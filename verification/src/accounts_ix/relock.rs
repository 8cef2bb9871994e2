//! Accounts of the instruction that extends a lock.
use vstd::prelude::*;
use crate::accounts_ix::{check, raw, spec_raw, TokenAccountData};
use crate::error::{LockerError, UncxLpError};
use crate::pubkey::Pubkey;
use crate::state::configuration::ConfigurationAccount;
use crate::state::token_lock::TokenLock;

verus! {

/// The lock, its owner's signature, the locker's authority and vault, the dev wallet's token
/// account for the lock's liquidity token, and the configuration.
#[derive(Clone, Debug, PartialEq, Eq)]
pub struct RelockLp {
    pub lp_locker_acc: TokenLock,
    /// the signer, who must own the lock
    pub lock_owner: Pubkey,
    pub uncx_authority_acc: Pubkey,
    pub uncx_lock_lp_vault_acc: TokenAccountData,
    pub dev_lp_token_account: TokenAccountData,
    pub config_account: ConfigurationAccount,
}

impl RelockLp {
    /// The first constraint the accounts break, in the order they are checked.
    pub open spec fn spec_validate(&self, locker_id: u64) -> Result<(), LockerError> {
        if self.lp_locker_acc.lock_global_id != locker_id {
            Err(spec_raw())
        } else if self.lock_owner != self.lp_locker_acc.lock_owner {
            Err(LockerError::Uncx(UncxLpError::OwnerMismatchError))
        } else if self.uncx_authority_acc != self.config_account.uncx_authority_pda_address {
            Err(spec_raw())
        } else {
            Ok(())
        }
    }

    /// The lock is the one named, its owner signs, and the authority is the locker's.
    pub fn validate(&self, locker_id: u64) -> (r: Result<(), LockerError>)
        ensures
            r == self.spec_validate(locker_id),
    {
        check(self.lp_locker_acc.lock_global_id == locker_id, raw())?;
        check(self.lock_owner == self.lp_locker_acc.lock_owner, LockerError::Uncx(UncxLpError::OwnerMismatchError))?;
        check(self.uncx_authority_acc == self.config_account.uncx_authority_pda_address, raw())
    }
}

} // verus!
