//! Whitelisting a locker.
use vstd::prelude::*;
use crate::accounts_ix::add_whitelist_ix::AddWhitelistAcc;
use crate::state::configuration::Whitelisted;

verus! {

/// What `handle_add_whitelist` does: the accounts before (`o`) and after (`f`).
pub open spec fn add_whitelist_effect(
    o: AddWhitelistAcc,
    f: AddWhitelistAcc,
    user_whitelist_bump: u8,
) -> bool {
    &&& f == (AddWhitelistAcc { user_whitelist_pda_acc: Whitelisted { bump: user_whitelist_bump }, ..o })
}

/// Records the bump seed of the new whitelist marker, whose existence exempts its holder from
/// the flat fees.
pub fn handle_add_whitelist(accs: &mut AddWhitelistAcc, user_whitelist_bump: u8)
    ensures
        add_whitelist_effect(*old(accs), *final(accs), user_whitelist_bump),
{
    accs.user_whitelist_pda_acc.bump = user_whitelist_bump;
}

} // verus!
