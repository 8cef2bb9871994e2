//! Accounts of the admin instructions that change the configuration.
use vstd::prelude::*;
use crate::accounts_ix::{check, raw};
use crate::error::LockerError;
use crate::pubkey::Pubkey;
use crate::state::configuration::ConfigurationAccount;

verus! {

/// The admin's signature and the configuration it changes.
#[derive(Clone, Debug, PartialEq, Eq)]
pub struct AdminIx {
    /// the signer, who must be the admin
    pub admin_sign: Pubkey,
    pub config_account: ConfigurationAccount,
}

impl AdminIx {
    /// Only the admin may sign.
    pub fn validate(&self) -> (r: Result<(), LockerError>)
        ensures
            r is Ok <==> self.admin_sign == self.config_account.config.admin_key,
            r is Err ==> r == Err::<(), LockerError>(raw()),
    {
        check(self.admin_sign == self.config_account.config.admin_key, raw())
    }
}

} // verus!
