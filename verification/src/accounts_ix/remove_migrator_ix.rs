//! Accounts of the instruction that revokes a migrator.
use vstd::prelude::*;
use crate::accounts_ix::{check, raw};
use crate::error::LockerError;
use crate::pubkey::Pubkey;
use crate::state::configuration::{ConfigurationAccount, Migrator};

verus! {

/// The configuration, the admin's signature and the migrator marker to close.
#[derive(Clone, Debug, PartialEq, Eq)]
pub struct RemoveMigrator {
    pub config_account: ConfigurationAccount,
    /// the signer, who must be the admin
    pub admin_sign: Pubkey,
    /// the marker closed
    pub migrator_marker_acc: Migrator,
    /// the wallet the marker's rent goes to
    pub receiver: Pubkey,
}

impl RemoveMigrator {
    /// Only the admin may sign.
    pub fn validate(&self) -> (r: Result<(), LockerError>)
        ensures
            r is Ok <==> self.admin_sign == self.config_account.config.admin_key,
            r is Err ==> r == Err::<(), LockerError>(raw()),
    {
        check(self.admin_sign == self.config_account.config.admin_key, raw())
    }
}

} // verus!
