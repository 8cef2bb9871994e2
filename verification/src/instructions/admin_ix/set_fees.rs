//! Changing the fee settings.
use vstd::prelude::*;
use crate::accounts_ix::admin_ix::AdminIx;
use crate::error::{LockerError, UncxLpError};
use crate::state::configuration::{valid_fees_config, Config, ConfigurationAccount, FeesConfig};

verus! {

/// What `handle_set_fees` does: the accounts before (`o`) and after (`f`), and its result.
pub open spec fn set_fees_effect(
    o: AdminIx,
    f: AdminIx,
    r: Result<(), LockerError>,
    new_fees_data: FeesConfig,
) -> bool {
    &&& r is Ok <==> valid_fees_config(new_fees_data)
    &&& r is Err ==> r == Err::<(), LockerError>(LockerError::Uncx(UncxLpError::InvalidPercentage))
        && f == o
    &&& r is Ok ==> f == (AdminIx {
        config_account: ConfigurationAccount {
            config: Config { fee_config: new_fees_data, ..o.config_account.config },
            ..o.config_account
        },
        ..o
        })
}

/// Replaces the fee settings; refuses basis points above 100 %.
pub fn handle_set_fees(accs: &mut AdminIx, new_fees_data: FeesConfig) -> (r: Result<(), LockerError>)
    ensures
        set_fees_effect(*old(accs), *final(accs), r, new_fees_data),
{
    accs.config_account.set_fees_config(new_fees_data)
}

} // verus!
