//! Accounts of the instruction that adds tokens to a lock.
use vstd::prelude::*;
use crate::accounts_ix::{check, raw, spec_raw, TokenAccountData};
use crate::error::{LockerError, UncxLpError};
use crate::pubkey::Pubkey;
use crate::state::configuration::ConfigurationAccount;
use crate::state::token_lock::TokenLock;

verus! {

/// The lock, the dev wallet's token account, the locker's vault, the configuration, and the
/// token account and signature of whoever adds the tokens.
#[derive(Clone, Debug, PartialEq, Eq)]
pub struct IncrementLockLp {
    pub lp_locker_acc: TokenLock,
    pub dev_lp_token_account: TokenAccountData,
    pub uncx_lock_lp_vault_acc: TokenAccountData,
    pub config_account: ConfigurationAccount,
    /// where the added tokens come from
    pub increment_lock_lp_entity_lp_token_acc: TokenAccountData,
    /// the signer adding the tokens (anyone may)
    pub increment_lock_lp_entity_authority_acc: Pubkey,
}

impl IncrementLockLp {
    /// The first constraint the accounts break, in the order they are checked.
    pub open spec fn spec_validate(&self, locker_id: u64, increase_amount: u64) -> Result<(), LockerError> {
        if self.lp_locker_acc.lock_global_id != locker_id {
            Err(spec_raw())
        } else if increase_amount == 0 {
            Err(LockerError::Uncx(UncxLpError::ZeroAmountError))
        } else {
            Ok(())
        }
    }

    /// The lock is the one named and the amount added is not zero.
    pub fn validate(&self, locker_id: u64, increase_amount: u64) -> (r: Result<(), LockerError>)
        ensures
            r == self.spec_validate(locker_id, increase_amount),
    {
        check(self.lp_locker_acc.lock_global_id == locker_id, raw())?;
        check(increase_amount > 0, LockerError::Uncx(UncxLpError::ZeroAmountError))
    }
}

} // verus!
