//! Managing the list of countries that may not lock.
use vstd::prelude::*;
use crate::accounts_ix::admin_ix::AdminIx;
use crate::error::{LockerError, UncxLpError};
use crate::state::configuration::swap_removed;
use crate::state::search::first_position;

verus! {

/// What `handle_add_country_to_blacklist` does: the accounts before (`o`) and after (`f`), and its result.
pub open spec fn add_country_to_blacklist_effect(
    o: AdminIx,
    f: AdminIx,
    r: Result<(), LockerError>,
    country_code_to_add: u8,
) -> bool {
    &&& f.admin_sign == o.admin_sign
    &&& f.config_account.config == o.config_account.config
    &&& f.config_account.bump == o.config_account.bump
    &&& f.config_account.uncx_authority_pda_address == o.config_account.uncx_authority_pda_address
    &&& f.config_account.uncx_authority_bump == o.config_account.uncx_authority_bump
    &&& r is Ok <==> !o.config_account.blacklisted_countries@.contains(country_code_to_add)
    &&& r is Ok ==> f.config_account.blacklisted_countries@
        == o.config_account.blacklisted_countries@.push(country_code_to_add)
    &&& r is Err ==> r == Err::<(), LockerError>(LockerError::Uncx(UncxLpError::CountryCodeAlreadyExists))
        && f.config_account.blacklisted_countries@ == o.config_account.blacklisted_countries@
}

/// Adds a country to the blacklist; refuses one that is already there.
pub fn handle_add_country_to_blacklist(accs: &mut AdminIx, country_code_to_add: u8) -> (r: Result<(), LockerError>)
    ensures
        add_country_to_blacklist_effect(*old(accs), *final(accs), r, country_code_to_add),
{
    accs.config_account.add_country_to_blacklist(country_code_to_add)
}

/// What `handle_remove_country_from_blacklist` does: the accounts before (`o`) and after (`f`), and its result.
pub open spec fn remove_country_from_blacklist_effect(
    o: AdminIx,
    f: AdminIx,
    r: Result<(), LockerError>,
    country_code_to_remove: u8,
) -> bool {
    &&& f.admin_sign == o.admin_sign
    &&& f.config_account.config == o.config_account.config
    &&& f.config_account.bump == o.config_account.bump
    &&& f.config_account.uncx_authority_pda_address == o.config_account.uncx_authority_pda_address
    &&& f.config_account.uncx_authority_bump == o.config_account.uncx_authority_bump
    &&& r is Ok <==> o.config_account.blacklisted_countries@.contains(country_code_to_remove)
    &&& r is Ok ==> f.config_account.blacklisted_countries@ == swap_removed(
        o.config_account.blacklisted_countries@,
        first_position(o.config_account.blacklisted_countries@, country_code_to_remove),
        )
    &&& r is Err ==> r == Err::<(), LockerError>(LockerError::Uncx(UncxLpError::CountryCodeNotPresent))
        && f.config_account.blacklisted_countries@ == o.config_account.blacklisted_countries@
}

/// Removes a country from the blacklist; refuses one that is not there.
pub fn handle_remove_country_from_blacklist(accs: &mut AdminIx, country_code_to_remove: u8) -> (r: Result<(), LockerError>)
    ensures
        remove_country_from_blacklist_effect(*old(accs), *final(accs), r, country_code_to_remove),
{
    accs.config_account.remove_country_from_blacklist(country_code_to_remove)
}

} // verus!
