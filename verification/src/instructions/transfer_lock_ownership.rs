//! Handing a lock to a new owner.
use vstd::prelude::*;
use crate::accounts_ix::transfer_lock_ownership::{TransferLockOwnership, TransferLockOwnershipBumps};
use crate::error::{LockerError, UncxLpError};
use crate::pubkey::Pubkey;
use crate::state::events::OnTransferLockOwnership;
use crate::state::search::first_position;
use crate::state::token_lock::TokenLock;
use crate::state::user_info::UserInfoAccount;
use crate::utils::{clean_locker_from_tracker_and_close, TrackerCleanup};

verus! {

/// What a transfer does besides updating the accounts: which of the old owner's tracking
/// accounts it closed, and the event.
#[derive(Clone, Copy, Debug, PartialEq, Eq)]
pub struct TransferOwnershipOutcome {
    pub old_owner_cleanup: TrackerCleanup,
    pub event: OnTransferLockOwnership,
}

/// What `handle_transfer_lock_ownership` does: the accounts before (`o`) and after (`f`), and its result.
pub open spec fn transfer_lock_ownership_effect(
    o: TransferLockOwnership,
    f: TransferLockOwnership,
    r: Result<TransferOwnershipOutcome, LockerError>,
    bumps: TransferLockOwnershipBumps,
    lock_id: u64,
    new_owner: Pubkey,
) -> bool {
    &&& ({
        let old_ids = o.old_user_info_lp_tracker_acc.associated_locker_ids@;
        let old_lock = o.lp_locker_acc;
        &&& (r is Ok <==> old_ids.contains(lock_id))
        &&& r is Err ==> r == Err::<TransferOwnershipOutcome, LockerError>(LockerError::Uncx(UncxLpError::MissingLockerId))
            && f.lp_locker_acc == old_lock
            && f.old_user_info_acc == o.old_user_info_acc
            && f.new_user_info_acc == o.new_user_info_acc
            && f.old_user_info_lp_tracker_acc.associated_locker_ids@ == old_ids
            && f.new_user_info_lp_tracker_acc.associated_locker_ids@
                == o.new_user_info_lp_tracker_acc.associated_locker_ids@
        &&& r matches Ok(out) ==> {
            &&& f.lp_locker_acc == (TokenLock { lock_owner: new_owner, ..old_lock })
            &&& f.old_user_info_lp_tracker_acc.associated_locker_ids@ == old_ids.remove(
                first_position(old_ids, lock_id),
            )
            &&& f.old_user_info_acc == (UserInfoAccount {
                lp_locker_count: (o.old_user_info_acc.lp_locker_count - 1) as u64,
                ..o.old_user_info_acc
            })
            &&& f.new_user_info_acc == (UserInfoAccount {
                bump: bumps.new_user_info_acc,
                lp_mint: o.old_user_info_acc.lp_mint,
                lp_locker_count: (o.new_user_info_acc.lp_locker_count + 1) as u64,
                user: new_owner,
            })
            &&& f.new_user_info_lp_tracker_acc.bump == bumps.new_user_info_lp_tracker_acc
            &&& f.new_user_info_lp_tracker_acc.associated_locker_ids@
                == o.new_user_info_lp_tracker_acc.associated_locker_ids@.push(lock_id)
            &&& out.old_owner_cleanup.tracker_closed
                == (f.old_user_info_lp_tracker_acc.associated_locker_ids@.len() == 0)
            &&& out.old_owner_cleanup.user_info_closed == (f.old_user_info_acc.lp_locker_count == 0)
            &&& out.event == (OnTransferLockOwnership {
                lock_id,
                lp_token: old_lock.amm_id,
                old_owner: old_lock.lock_owner,
                new_owner,
            })
        }
        })
    &&& f.payer == o.payer
    &&& f.lock_owner == o.lock_owner
    &&& f.old_user_info_lp_tracker_acc.bump == o.old_user_info_lp_tracker_acc.bump
}

/// Gives the lock to `new_owner`: the lock moves from the old owner's tracker and count (closing
/// what empties) to the new owner's. Refused if the old owner's tracker does not list the lock.
pub fn handle_transfer_lock_ownership(
    accs: &mut TransferLockOwnership,
    bumps: TransferLockOwnershipBumps,
    lock_id: u64,
    new_owner: Pubkey,
) -> (r: Result<TransferOwnershipOutcome, LockerError>)
    requires
        old(accs).old_user_info_lp_tracker_acc.associated_locker_ids@.contains(lock_id) ==> old(accs).old_user_info_acc.lp_locker_count > 0,
        old(accs).new_user_info_acc.lp_locker_count < u64::MAX,
    ensures
        transfer_lock_ownership_effect(*old(accs), *final(accs), r, bumps, lock_id, new_owner),
{
    let old_owner_cleanup = clean_locker_from_tracker_and_close(
        &mut accs.old_user_info_lp_tracker_acc,
        &mut accs.old_user_info_acc,
        lock_id,
    )?;
    let old_owner = accs.lp_locker_acc.lock_owner;
    accs.new_user_info_acc = UserInfoAccount {
        bump: bumps.new_user_info_acc,
        lp_mint: accs.old_user_info_acc.lp_mint,
        lp_locker_count: accs.new_user_info_acc.lp_locker_count + 1,
        user: new_owner,
    };
    accs.new_user_info_lp_tracker_acc.bump = bumps.new_user_info_lp_tracker_acc;
    accs.new_user_info_lp_tracker_acc.associated_locker_ids.push(lock_id);
    accs.lp_locker_acc.lock_owner = new_owner;
    let event = OnTransferLockOwnership { lock_id, lp_token: accs.lp_locker_acc.amm_id, old_owner, new_owner };
    Ok(TransferOwnershipOutcome { old_owner_cleanup, event })
}

} // verus!
