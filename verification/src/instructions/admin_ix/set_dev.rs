//! Changing the wallet the fees go to.
use vstd::prelude::*;
use crate::accounts_ix::admin_ix::AdminIx;
use crate::error::{FrameworkError, LockerError};
use crate::pubkey::Pubkey;
use crate::state::configuration::{Config, ConfigurationAccount};

verus! {

/// What `handle_set_dev` does: the accounts before (`o`) and after (`f`), and its result.
pub open spec fn set_dev_effect(
    o: AdminIx,
    f: AdminIx,
    r: Result<(), LockerError>,
    new_dev_addr: Pubkey,
) -> bool {
    &&& r is Ok <==> o.config_account.config.dev_addr != new_dev_addr
    &&& r is Err ==> r == Err::<(), LockerError>(LockerError::Framework(FrameworkError::RequireKeysNeqViolated))
        && f == o
    &&& r is Ok ==> f == (AdminIx {
        config_account: ConfigurationAccount {
            config: Config { dev_addr: new_dev_addr, ..o.config_account.config },
            ..o.config_account
        },
        ..o
        })
}

/// Makes `new_dev_addr` the wallet the fees go to; refuses the current one.
pub fn handle_set_dev(accs: &mut AdminIx, new_dev_addr: Pubkey) -> (r: Result<(), LockerError>)
    ensures
        set_dev_effect(*old(accs), *final(accs), r, new_dev_addr),
{
    if accs.config_account.config.dev_addr == new_dev_addr {
        return Err(LockerError::Framework(FrameworkError::RequireKeysNeqViolated));
    }
    accs.config_account.set_developer_address(new_dev_addr);
    Ok(())
}

} // verus!
