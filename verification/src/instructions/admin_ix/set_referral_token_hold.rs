//! Changing the referral token and the balance a referrer must hold.
use vstd::prelude::*;
use crate::accounts_ix::admin_ix::AdminIx;
use crate::error::{FrameworkError, LockerError};
use crate::pubkey::Pubkey;
use crate::state::configuration::{Config, ConfigurationAccount};

verus! {

/// What `handle_set_referral_token_and_min_balance` does: the accounts before (`o`) and after (`f`), and its result.
pub open spec fn set_referral_token_and_min_balance_effect(
    o: AdminIx,
    f: AdminIx,
    r: Result<(), LockerError>,
    new_referral_token_address: Option<Pubkey>,
    new_min_balance: u64,
) -> bool {
    &&& ({
        let same = o.config_account.config.referral_token_address is Some && new_referral_token_address is Some
            && o.config_account.config.referral_token_address == new_referral_token_address;
        &&& r is Ok <==> !same
        &&& r is Err ==> r == Err::<(), LockerError>(LockerError::Framework(FrameworkError::RequireKeysNeqViolated))
            && f == o
        &&& r is Ok ==> f == (AdminIx {
            config_account: ConfigurationAccount {
                config: Config {
                    referral_token_address: new_referral_token_address,
                    min_referral_balance: new_min_balance,
                    ..o.config_account.config
                },
                ..o.config_account
            },
            ..o
        })
        })
}

/// Sets (or clears) the referral token and sets the balance a referrer must hold; refuses
/// setting the token already set.
pub fn handle_set_referral_token_and_min_balance(
    accs: &mut AdminIx,
    new_referral_token_address: Option<Pubkey>,
    new_min_balance: u64,
) -> (r: Result<(), LockerError>)
    ensures
        set_referral_token_and_min_balance_effect(*old(accs), *final(accs), r, new_referral_token_address, new_min_balance),
{
    if let (Some(existing), Some(new_address)) = (accs.config_account.config.referral_token_address, new_referral_token_address) {
        if existing == new_address {
            return Err(LockerError::Framework(FrameworkError::RequireKeysNeqViolated));
        }
    }
    accs.config_account.set_referral_token_and_min_hold_balance(new_referral_token_address, new_min_balance);
    Ok(())
}

} // verus!
