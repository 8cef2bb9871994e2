//! Accounts of the instruction that creates the configuration.
use vstd::prelude::*;
use crate::accounts_ix::check;
use crate::constants::{initial_admin, spec_initial_admin};
use crate::error::{FrameworkError, LockerError};
use crate::pubkey::Pubkey;
use crate::state::configuration::ConfigurationAccount;

verus! {

/// The payer, the configuration account being created, the initial admin's signature and the
/// locker's authority address.
#[derive(Clone, Debug, PartialEq, Eq)]
pub struct InitializeConfig {
    pub payer: Pubkey,
    /// the new, zero-filled configuration account
    pub config_account: ConfigurationAccount,
    /// the signer, who must be the initial admin
    pub initial_admin: Pubkey,
    /// the locker's authority address, which owns the vaults
    pub uncx_authority_acc: Pubkey,
}

/// The bump seeds found for the accounts derived from the program.
#[derive(Clone, Copy, Debug, PartialEq, Eq, Structural)]
pub struct InitializeConfigBumps {
    pub config_account: u8,
    pub uncx_authority_acc: u8,
}

impl InitializeConfig {
    /// Only the initial admin may create the configuration.
    pub fn validate(&self) -> (r: Result<(), LockerError>)
        ensures
            r is Ok <==> self.initial_admin == spec_initial_admin(),
            r is Err ==> r == Err::<(), LockerError>(LockerError::Framework(FrameworkError::ConstraintAddress)),
    {
        check(self.initial_admin == initial_admin(), LockerError::Framework(FrameworkError::ConstraintAddress))
    }
}

} // verus!
