//! Withdrawing tokens from an expired lock.
use vstd::prelude::*;
use crate::accounts_ix::withdraw_lp::WithdrawLp;
use crate::error::{LockerError, UncxLpError};
use crate::state::events::OnWithdraw;
use crate::state::search::first_position;
use crate::state::token_lock::TokenLock;
use crate::state::user_info::{UserInfoAccount, UserLpInfoAccount};
use crate::utils::{clean_locker_from_tracker_and_close, token_transfer_signed, TokenAction, TrackerCleanup};

verus! {

/// What a withdrawal does besides updating the accounts: the owner's tracking accounts it closed
/// (only when the lock empties), the transfer out of the vault, and the event.
#[derive(Clone, Copy, Debug, PartialEq, Eq)]
pub struct WithdrawOutcome {
    pub cleanup: Option<TrackerCleanup>,
    pub transfer: TokenAction,
    pub event: OnWithdraw,
}

/// Why emptying a lock is refused, if it is: it needs the owner's tracking accounts, and the
/// tracker must list the lock. Taking out less than all never is.
pub open spec fn spec_release_error(
    emptied: bool,
    lock_id: u64,
    tracker: Option<UserLpInfoAccount>,
    user_info: Option<UserInfoAccount>,
) -> Option<LockerError> {
    if !emptied {
        None
    } else if tracker is None || user_info is None {
        Some(LockerError::Uncx(UncxLpError::MissingRequiredAccount))
    } else if !tracker->0.associated_locker_ids@.contains(lock_id) {
        Some(LockerError::Uncx(UncxLpError::MissingLockerId))
    } else {
        None
    }
}

/// The owner's lock count does not underflow when an emptied lock leaves the tracking accounts.
pub open spec fn release_defined(
    emptied: bool,
    lock_id: u64,
    tracker: Option<UserLpInfoAccount>,
    user_info: Option<UserInfoAccount>,
) -> bool {
    (emptied && tracker is Some && user_info is Some && tracker->0.associated_locker_ids@.contains(lock_id))
        ==> user_info->0.lp_locker_count > 0
}

/// The tracking accounts are as they were (as far as the locker reads them).
pub open spec fn tracking_unchanged(
    tracker: Option<UserLpInfoAccount>,
    user_info: Option<UserInfoAccount>,
    final_tracker: Option<UserLpInfoAccount>,
    final_user_info: Option<UserInfoAccount>,
) -> bool {
    &&& (tracker is Some <==> final_tracker is Some)
    &&& tracker is Some ==> final_tracker->0.associated_locker_ids@ == tracker->0.associated_locker_ids@
        && final_tracker->0.bump == tracker->0.bump
    &&& final_user_info == user_info
}

/// The tracking accounts after a release that succeeded: untouched unless the lock emptied, in
/// which case the lock leaves the tracker and the owner's count drops by one.
pub open spec fn spec_released_tracking(
    emptied: bool,
    lock_id: u64,
    tracker: Option<UserLpInfoAccount>,
    user_info: Option<UserInfoAccount>,
    final_tracker: Option<UserLpInfoAccount>,
    final_user_info: Option<UserInfoAccount>,
    cleanup: Option<TrackerCleanup>,
) -> bool {
    if !emptied {
        &&& tracking_unchanged(tracker, user_info, final_tracker, final_user_info)
        &&& cleanup is None
    } else {
        let ids = tracker->0.associated_locker_ids@;
        &&& final_tracker matches Some(t) && t.bump == tracker->0.bump
            && t.associated_locker_ids@ == ids.remove(first_position(ids, lock_id))
        &&& final_user_info == Some(UserInfoAccount {
            lp_locker_count: (user_info->0.lp_locker_count - 1) as u64,
            ..user_info->0
        })
        &&& cleanup matches Some(c) && c.tracker_closed == (final_tracker->0.associated_locker_ids@.len() == 0)
            && c.user_info_closed == (final_user_info->0.lp_locker_count == 0)
    }
}

/// Takes an emptied lock out of its owner's tracking accounts.
pub(crate) fn release_tracking(
    tracker_slot: &mut Option<UserLpInfoAccount>,
    user_info_slot: &mut Option<UserInfoAccount>,
    emptied: bool,
    lock_id: u64,
) -> (r: Result<Option<TrackerCleanup>, LockerError>)
    requires
        release_defined(emptied, lock_id, *old(tracker_slot), *old(user_info_slot)),
    ensures
        match spec_release_error(emptied, lock_id, *old(tracker_slot), *old(user_info_slot)) {
            Some(e) => r == Err::<Option<TrackerCleanup>, LockerError>(e) && tracking_unchanged(
                *old(tracker_slot),
                *old(user_info_slot),
                *final(tracker_slot),
                *final(user_info_slot),
            ),
            None => r matches Ok(c) && spec_released_tracking(
                emptied,
                lock_id,
                *old(tracker_slot),
                *old(user_info_slot),
                *final(tracker_slot),
                *final(user_info_slot),
                c,
            ),
        },
{
    if !emptied {
        return Ok(None);
    }
    let tracker = tracker_slot.take();
    let user_info = user_info_slot.take();
    match (tracker, user_info) {
        (Some(mut t), Some(mut u)) => {
            let res = clean_locker_from_tracker_and_close(&mut t, &mut u, lock_id);
            *tracker_slot = Some(t);
            *user_info_slot = Some(u);
            match res {
                Ok(c) => Ok(Some(c)),
                Err(e) => Err(e),
            }
        },
        (t, u) => {
            *tracker_slot = t;
            *user_info_slot = u;
            Err(LockerError::Uncx(UncxLpError::MissingRequiredAccount))
        },
    }
}

/// What `handle_withdraw_lp` does: the accounts before (`o`) and after (`f`), and its result.
pub open spec fn withdraw_lp_effect(
    o: WithdrawLp,
    f: WithdrawLp,
    r: Result<WithdrawOutcome, LockerError>,
    lock_id: u64,
    withdraw_amount: u64,
) -> bool {
    &&& ({
        let old_lock = o.lp_locker_acc;
        let emptied = old_lock.current_locked_amount == withdraw_amount;
        match spec_release_error(emptied, lock_id, o.user_info_lp_tracker_acc, o.user_info_acc) {
            Some(e) => r == Err::<WithdrawOutcome, LockerError>(e) && f.lp_locker_acc == old_lock
                && tracking_unchanged(
                o.user_info_lp_tracker_acc,
                o.user_info_acc,
                f.user_info_lp_tracker_acc,
                f.user_info_acc,
            ),
            None => {
                let remaining = (old_lock.current_locked_amount - withdraw_amount) as u64;
                &&& r matches Ok(out) && spec_released_tracking(
                    emptied,
                    lock_id,
                    o.user_info_lp_tracker_acc,
                    o.user_info_acc,
                    f.user_info_lp_tracker_acc,
                    f.user_info_acc,
                    out.cleanup,
                ) && out.transfer == (TokenAction::SignedTokenTransfer {
                    from: o.uncx_lock_lp_vault_acc.key,
                    to: o.user_lp_token_acc.key,
                    authority: o.uncx_authority_acc,
                    authority_bump: o.config_account.uncx_authority_bump,
                    amount: withdraw_amount,
                }) && out.event == (OnWithdraw {
                    lock_id,
                    lp_token: old_lock.amm_id,
                    owner: old_lock.lock_owner,
                    amount_remaining_in_lock: remaining,
                    amount_removed: withdraw_amount,
                })
                &&& f.lp_locker_acc == (TokenLock { current_locked_amount: remaining, ..old_lock })
            },
        }
        })
    &&& f.lock_owner == o.lock_owner
    &&& f.uncx_authority_acc == o.uncx_authority_acc
    &&& f.uncx_lock_lp_vault_acc == o.uncx_lock_lp_vault_acc
    &&& f.config_account == o.config_account
    &&& f.user_lp_token_acc == o.user_lp_token_acc
}

/// Sends `withdraw_amount` of an expired lock back to its owner; when the lock empties, it
/// leaves the owner's tracking accounts.
pub fn handle_withdraw_lp(accs: &mut WithdrawLp, lock_id: u64, withdraw_amount: u64) -> (r: Result<
    WithdrawOutcome,
    LockerError,
>)
    requires
        withdraw_amount <= old(accs).lp_locker_acc.current_locked_amount,
        release_defined(
            old(accs).lp_locker_acc.current_locked_amount == withdraw_amount,
            lock_id,
            old(accs).user_info_lp_tracker_acc,
            old(accs).user_info_acc,
        ),
    ensures
        withdraw_lp_effect(*old(accs), *final(accs), r, lock_id, withdraw_amount),
{
    let emptied = accs.lp_locker_acc.current_locked_amount == withdraw_amount;
    let cleanup = release_tracking(&mut accs.user_info_lp_tracker_acc, &mut accs.user_info_acc, emptied, lock_id)?;
    accs.lp_locker_acc.current_locked_amount = accs.lp_locker_acc.current_locked_amount - withdraw_amount;
    let transfer = token_transfer_signed(
        withdraw_amount,
        accs.uncx_lock_lp_vault_acc.key,
        accs.user_lp_token_acc.key,
        accs.uncx_authority_acc,
        accs.config_account.uncx_authority_bump,
    );
    let event = OnWithdraw {
        lock_id,
        lp_token: accs.lp_locker_acc.amm_id,
        owner: accs.lp_locker_acc.lock_owner,
        amount_remaining_in_lock: accs.lp_locker_acc.current_locked_amount,
        amount_removed: withdraw_amount,
    };
    Ok(WithdrawOutcome { cleanup, transfer, event })
}

} // verus!
