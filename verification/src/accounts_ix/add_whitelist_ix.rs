//! Accounts of the instruction that whitelists a locker.
use vstd::prelude::*;
use crate::accounts_ix::{check, raw};
use crate::error::LockerError;
use crate::pubkey::Pubkey;
use crate::state::configuration::{ConfigurationAccount, Whitelisted};

verus! {

/// The admin's signature, the configuration and the new whitelist marker.
#[derive(Clone, Debug, PartialEq, Eq)]
pub struct AddWhitelistAcc {
    pub payer: Pubkey,
    /// the signer, who must be the admin
    pub admin_sign: Pubkey,
    pub config_account: ConfigurationAccount,
    /// the marker created for the whitelisted locker
    pub user_whitelist_pda_acc: Whitelisted,
}

impl AddWhitelistAcc {
    /// Only the admin may sign.
    pub fn validate(&self) -> (r: Result<(), LockerError>)
        ensures
            r is Ok <==> self.admin_sign == self.config_account.config.admin_key,
            r is Err ==> r == Err::<(), LockerError>(raw()),
    {
        check(self.admin_sign == self.config_account.config.admin_key, raw())
    }
}

} // verus!
