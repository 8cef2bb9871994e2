//! The accounts each instruction works on, as plain values, and the constraints each
//! instruction's accounts must meet before it runs.
use vstd::prelude::*;
use crate::error::{FrameworkError, LockerError};
use crate::pubkey::Pubkey;

pub mod add_migrator_ix;
pub mod add_whitelist_ix;
pub mod admin_ix;
pub mod increment_lock_lp;
pub mod initialize_ix;
pub mod lock_lp;
pub mod migrate;
pub mod relock;
pub mod remove_migrator_ix;
pub mod remove_whitelist_ix;
pub mod split_lock;
pub mod transfer_lock_ownership;
pub mod withdraw_lp;

verus! {

/// A token account: its address, its mint, the wallet that may move its tokens, its balance.
#[derive(Clone, Copy, Debug, PartialEq, Eq)]
pub struct TokenAccountData {
    pub key: Pubkey,
    pub mint: Pubkey,
    pub owner: Pubkey,
    pub amount: u64,
}

/// An account whose raw data the locker decodes itself: its address, the program owning it and
/// its data.
#[derive(Clone, Debug, PartialEq, Eq)]
pub struct RawAccount {
    pub key: Pubkey,
    pub owner: Pubkey,
    pub data: Vec<u8>,
}

/// `Ok` when the condition holds, else the error.
pub(crate) fn check(cond: bool, err: LockerError) -> (r: Result<(), LockerError>)
    ensures
        cond ==> r == Ok::<(), LockerError>(()),
        !cond ==> r == Err::<(), LockerError>(err),
{
    if cond {
        Ok(())
    } else {
        Err(err)
    }
}

/// The error of a constraint that has no error code of its own.
pub open spec fn spec_raw() -> LockerError {
    LockerError::Framework(FrameworkError::ConstraintRaw)
}

/// The error of a constraint that has no error code of its own.
#[verifier::when_used_as_spec(spec_raw)]
pub fn raw() -> (r: LockerError)
    ensures
        r == spec_raw(),
{
    LockerError::Framework(FrameworkError::ConstraintRaw)
}

} // verus!
