//! Handing the admin role to a new key.
use vstd::prelude::*;
use crate::accounts_ix::admin_ix::AdminIx;
use crate::error::{FrameworkError, LockerError};
use crate::pubkey::Pubkey;
use crate::state::configuration::{Config, ConfigurationAccount};

verus! {

/// What `handle_change_owner` does: the accounts before (`o`) and after (`f`), and its result.
pub open spec fn change_owner_effect(
    o: AdminIx,
    f: AdminIx,
    r: Result<(), LockerError>,
    new_admin_key: Pubkey,
) -> bool {
    &&& r is Ok <==> o.config_account.config.admin_key != new_admin_key
    &&& r is Err ==> r == Err::<(), LockerError>(LockerError::Framework(FrameworkError::RequireKeysNeqViolated))
        && f == o
    &&& r is Ok ==> f == (AdminIx {
        config_account: ConfigurationAccount {
            config: Config { admin_key: new_admin_key, ..o.config_account.config },
            ..o.config_account
        },
        ..o
        })
}

/// Makes `new_admin_key` the admin; refuses the current admin key.
pub fn handle_change_owner(accs: &mut AdminIx, new_admin_key: Pubkey) -> (r: Result<(), LockerError>)
    ensures
        change_owner_effect(*old(accs), *final(accs), r, new_admin_key),
{
    if accs.config_account.config.admin_key == new_admin_key {
        return Err(LockerError::Framework(FrameworkError::RequireKeysNeqViolated));
    }
    accs.config_account.set_new_admin(new_admin_key);
    Ok(())
}

} // verus!
