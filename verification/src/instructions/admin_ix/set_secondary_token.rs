//! Changing the secondary token whose burning pays the flat fee.
use vstd::prelude::*;
use crate::accounts_ix::admin_ix::AdminIx;
use crate::error::{FrameworkError, LockerError};
use crate::pubkey::Pubkey;
use crate::state::configuration::{Config, ConfigurationAccount};

verus! {

/// What `handle_set_secondary_token` does: the accounts before (`o`) and after (`f`), and its result.
pub open spec fn set_secondary_token_effect(
    o: AdminIx,
    f: AdminIx,
    r: Result<(), LockerError>,
    new_secondary_token: Option<Pubkey>,
) -> bool {
    &&& ({
        let same = o.config_account.config.secondary_token_address is Some && new_secondary_token is Some
            && o.config_account.config.secondary_token_address == new_secondary_token;
        &&& r is Ok <==> !same
        &&& r is Err ==> r == Err::<(), LockerError>(LockerError::Framework(FrameworkError::RequireKeysNeqViolated))
            && f == o
        &&& r is Ok ==> f == (AdminIx {
            config_account: ConfigurationAccount {
                config: Config { secondary_token_address: new_secondary_token, ..o.config_account.config },
                ..o.config_account
            },
            ..o
        })
        })
}

/// Sets (or clears) the secondary token; refuses setting the token already set.
pub fn handle_set_secondary_token(accs: &mut AdminIx, new_secondary_token: Option<Pubkey>) -> (r: Result<(), LockerError>)
    ensures
        set_secondary_token_effect(*old(accs), *final(accs), r, new_secondary_token),
{
    if let (Some(existing), Some(new_address)) = (accs.config_account.config.secondary_token_address, new_secondary_token) {
        if existing == new_address {
            return Err(LockerError::Framework(FrameworkError::RequireKeysNeqViolated));
        }
    }
    accs.config_account.set_secondary_fee_token(new_secondary_token);
    Ok(())
}

} // verus!
