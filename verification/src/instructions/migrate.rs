//! Handing a lock's tokens to a migrator.
use vstd::prelude::*;
use crate::accounts_ix::migrate::MigrateLp;
use crate::error::LockerError;
use crate::instructions::withdraw_lp::{
    release_defined, release_tracking, spec_release_error, spec_released_tracking, tracking_unchanged,
};
use crate::state::events::OnMigrate;
use crate::state::token_lock::TokenLock;
use crate::utils::{token_transfer_signed, TokenAction, TrackerCleanup};

verus! {

/// What a migration does besides updating the accounts: the owner's tracking accounts it closed
/// (only when the lock empties), the transfer out of the vault, and the event.
#[derive(Clone, Copy, Debug, PartialEq, Eq)]
pub struct MigrateOutcome {
    pub cleanup: Option<TrackerCleanup>,
    pub transfer: TokenAction,
    pub event: OnMigrate,
}

/// What `handle_migrate_lp` does: the accounts before (`o`) and after (`f`), and its result.
pub open spec fn migrate_lp_effect(
    o: MigrateLp,
    f: MigrateLp,
    r: Result<MigrateOutcome, LockerError>,
    lock_id: u64,
    migrate_amount: u64,
    migration_option: u16,
) -> bool {
    &&& ({
        let old_lock = o.lp_locker_acc;
        let emptied = old_lock.current_locked_amount == migrate_amount;
        match spec_release_error(emptied, lock_id, o.user_info_lp_tracker_acc, o.user_info_acc) {
            Some(e) => r == Err::<MigrateOutcome, LockerError>(e) && f.lp_locker_acc == old_lock
                && tracking_unchanged(
                o.user_info_lp_tracker_acc,
                o.user_info_acc,
                f.user_info_lp_tracker_acc,
                f.user_info_acc,
            ),
            None => {
                let remaining = (old_lock.current_locked_amount - migrate_amount) as u64;
                &&& r matches Ok(out) && spec_released_tracking(
                    emptied,
                    lock_id,
                    o.user_info_lp_tracker_acc,
                    o.user_info_acc,
                    f.user_info_lp_tracker_acc,
                    f.user_info_acc,
                    out.cleanup,
                ) && out.transfer == (TokenAction::SignedTokenTransfer {
                    from: o.uncx_lock_lp_vault_acc.key,
                    to: o.migrator_token_lp_account.key,
                    authority: o.uncx_authority_acc,
                    authority_bump: o.config_account.uncx_authority_bump,
                    amount: migrate_amount,
                }) && out.event == (OnMigrate {
                    lock_id,
                    lp_token: old_lock.amm_id,
                    owner: old_lock.lock_owner,
                    amount_remaining_in_lock: remaining,
                    amount_migrated: migrate_amount,
                    migration_option,
                })
                &&& f.lp_locker_acc == (TokenLock { current_locked_amount: remaining, ..old_lock })
            },
        }
        })
    &&& f.whitelisted_migrator_authority == o.whitelisted_migrator_authority
    &&& f.migrator_marker_acc == o.migrator_marker_acc
    &&& f.lock_owner == o.lock_owner
    &&& f.uncx_authority_acc == o.uncx_authority_acc
    &&& f.uncx_lock_lp_vault_acc == o.uncx_lock_lp_vault_acc
    &&& f.config_account == o.config_account
    &&& f.migrator_token_lp_account == o.migrator_token_lp_account
}

/// Sends `migrate_amount` of a lock to the migrator's token account, whatever the unlock date;
/// when the lock empties, it leaves the owner's tracking accounts.
pub fn handle_migrate_lp(accs: &mut MigrateLp, lock_id: u64, migrate_amount: u64, migration_option: u16) -> (r:
    Result<MigrateOutcome, LockerError>)
    requires
        migrate_amount <= old(accs).lp_locker_acc.current_locked_amount,
        release_defined(
            old(accs).lp_locker_acc.current_locked_amount == migrate_amount,
            lock_id,
            old(accs).user_info_lp_tracker_acc,
            old(accs).user_info_acc,
        ),
    ensures
        migrate_lp_effect(*old(accs), *final(accs), r, lock_id, migrate_amount, migration_option),
{
    let emptied = accs.lp_locker_acc.current_locked_amount == migrate_amount;
    let cleanup = release_tracking(&mut accs.user_info_lp_tracker_acc, &mut accs.user_info_acc, emptied, lock_id)?;
    accs.lp_locker_acc.current_locked_amount = accs.lp_locker_acc.current_locked_amount - migrate_amount;
    let transfer = token_transfer_signed(
        migrate_amount,
        accs.uncx_lock_lp_vault_acc.key,
        accs.migrator_token_lp_account.key,
        accs.uncx_authority_acc,
        accs.config_account.uncx_authority_bump,
    );
    let event = OnMigrate {
        lock_id,
        lp_token: accs.lp_locker_acc.amm_id,
        owner: accs.lp_locker_acc.lock_owner,
        amount_remaining_in_lock: accs.lp_locker_acc.current_locked_amount,
        amount_migrated: migrate_amount,
        migration_option,
    };
    Ok(MigrateOutcome { cleanup, transfer, event })
}

} // verus!
