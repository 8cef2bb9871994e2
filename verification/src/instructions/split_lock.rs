//! Splitting part of a lock off into a new lock.
use vstd::prelude::*;
use crate::accounts_ix::split_lock::{SplitLock, SplitLockBumps};
use crate::error::{LockerError, UncxLpError};
use crate::state::configuration::Config;
use crate::state::events::OnSplitLock;
use crate::state::search::first_position;
use crate::state::token_lock::TokenLock;
use crate::utils::{system_program_transfer, TokenAction};

verus! {

/// What a split does besides updating the accounts: the native fee it charges (nothing is sent
/// of a zero fee) and the event.
#[derive(Clone, Copy, Debug, PartialEq, Eq)]
pub struct SplitOutcome {
    pub fee_transfer: Option<TokenAction>,
    pub event: OnSplitLock,
}

/// The new lock a split creates: the old lock's pool, owner, country and dates, the next lock
/// id, and the amount split off.
pub open spec fn spec_split_lock(old_lock: TokenLock, next_id: u64, amount: u64, bump: u8) -> TokenLock {
    TokenLock {
        bump,
        lock_global_id: next_id,
        initial_lock_amount: amount,
        current_locked_amount: amount,
        ..old_lock
    }
}

/// The owner's tracked lock ids after a split: the old lock leaves when it is emptied, the new
/// lock joins.
pub open spec fn spec_split_tracked_ids(ids: Seq<u64>, old_lock: TokenLock, amount: u64, next_id: u64) -> Seq<u64> {
    if old_lock.current_locked_amount == amount {
        ids.remove(first_position(ids, old_lock.lock_global_id)).push(next_id)
    } else {
        ids.push(next_id)
    }
}

/// What `handle_split_lock` does: the accounts before (`o`) and after (`f`), and its result.
pub open spec fn split_lock_effect(
    o: SplitLock,
    f: SplitLock,
    r: Result<SplitOutcome, LockerError>,
    bumps: SplitLockBumps,
    old_lock_id: u64,
    amount_split_into_new_locker: u64,
) -> bool {
    &&& ({
        let old_lock = o.lp_locker_acc;
        let full = old_lock.current_locked_amount == amount_split_into_new_locker;
        let next_id = o.config_account.config.next_locker_unique_id;
        let ids = o.user_info_lp_tracker_acc.associated_locker_ids@;
        &&& (r is Err <==> full && !ids.contains(old_lock.lock_global_id))
        &&& r is Err ==> r == Err::<SplitOutcome, LockerError>(LockerError::Uncx(UncxLpError::MissingLockerId))
        &&& r is Err ==> f.lp_locker_acc == o.lp_locker_acc
            && f.new_lp_locker_acc == o.new_lp_locker_acc
            && f.config_account == o.config_account
            && f.user_info_acc == o.user_info_acc
            && f.user_info_lp_tracker_acc.associated_locker_ids@ == ids
        &&& r matches Ok(out) ==> {
            let new_lock = spec_split_lock(old_lock, next_id, amount_split_into_new_locker, bumps.new_lp_locker_acc);
            let remaining = (old_lock.current_locked_amount - amount_split_into_new_locker) as u64;
            &&& f.new_lp_locker_acc == new_lock
            &&& f.lp_locker_acc == (TokenLock { current_locked_amount: remaining, ..old_lock })
            &&& remaining + amount_split_into_new_locker == old_lock.current_locked_amount
            &&& next_id + 1 == f.config_account.config.next_locker_unique_id
            &&& f.user_info_acc.lp_locker_count == (if full {
                o.user_info_acc.lp_locker_count
            } else {
                (o.user_info_acc.lp_locker_count + 1) as u64
            })
            &&& f.user_info_acc.bump == o.user_info_acc.bump
            &&& f.user_info_acc.user == o.user_info_acc.user
            &&& f.user_info_acc.lp_mint == o.user_info_acc.lp_mint
            &&& f.user_info_lp_tracker_acc.bump == bumps.user_info_lp_tracker_acc
            &&& f.user_info_lp_tracker_acc.associated_locker_ids@ == spec_split_tracked_ids(
                ids,
                old_lock,
                amount_split_into_new_locker,
                next_id,
            )
            &&& f.config_account.config == (Config { next_locker_unique_id: (next_id + 1) as u64, ..o.config_account.config })
            &&& f.config_account.bump == o.config_account.bump
            &&& f.config_account.uncx_authority_pda_address == o.config_account.uncx_authority_pda_address
            &&& f.config_account.uncx_authority_bump == o.config_account.uncx_authority_bump
            &&& f.config_account.blacklisted_countries@ == o.config_account.blacklisted_countries@
            &&& out.fee_transfer == (if o.config_account.config.fee_config.native_fee > 0 {
                Some(
                    TokenAction::NativeTransfer {
                        from: o.payer,
                        to: o.dev_wallet,
                        amount: o.config_account.config.fee_config.native_fee,
                    },
                )
            } else {
                None
            })
            &&& out.event == (OnSplitLock {
                lock_id: next_id,
                old_lock_id: old_lock.lock_global_id,
                lp_token: old_lock.amm_id,
                owner: old_lock.lock_owner,
                amount_remaining_in_old_lock: remaining,
                amount_removed: amount_split_into_new_locker,
                unlock_date: old_lock.unlock_date,
            })
        }
        })
    &&& f.payer == o.payer
    &&& f.lock_owner == o.lock_owner
    &&& f.dev_wallet == o.dev_wallet
}

/// Moves `amount` of a lock into a new lock with the next lock id, for the native fee. The
/// owner's lock count grows by one unless the old lock is emptied, in which case the old lock
/// leaves the owner's tracker (refused if the tracker does not list it).
pub fn handle_split_lock(accs: &mut SplitLock, bumps: SplitLockBumps, old_lock_id: u64, amount_split_into_new_locker: u64) -> (r:
    Result<SplitOutcome, LockerError>)
    requires
        amount_split_into_new_locker <= old(accs).lp_locker_acc.current_locked_amount,
        old(accs).lp_locker_acc.current_locked_amount > amount_split_into_new_locker ==> old(accs).user_info_acc.lp_locker_count < u64::MAX,
        old(accs).config_account.config.next_locker_unique_id < u64::MAX,
    ensures
        split_lock_effect(*old(accs), *final(accs), r, bumps, old_lock_id, amount_split_into_new_locker),
{
    let fully_split = accs.lp_locker_acc.current_locked_amount == amount_split_into_new_locker;
    if fully_split {
        accs.user_info_lp_tracker_acc.find_and_remove_locker_from_tracking(accs.lp_locker_acc.lock_global_id)?;
    }
    let fee_transfer = system_program_transfer(
        accs.config_account.config.fee_config.native_fee,
        accs.payer,
        accs.dev_wallet,
    );
    let next_id = accs.config_account.config.next_locker_unique_id;
    let old_lock = accs.lp_locker_acc;
    accs.new_lp_locker_acc = TokenLock {
        lock_global_id: next_id,
        amm_id: old_lock.amm_id,
        lp_mint: old_lock.lp_mint,
        country_code: old_lock.country_code,
        lock_date: old_lock.lock_date,
        lock_owner: old_lock.lock_owner,
        unlock_date: old_lock.unlock_date,
        initial_lock_amount: amount_split_into_new_locker,
        current_locked_amount: amount_split_into_new_locker,
        bump: bumps.new_lp_locker_acc,
    };
    accs.lp_locker_acc.current_locked_amount = accs.lp_locker_acc.current_locked_amount - amount_split_into_new_locker;
    if accs.lp_locker_acc.current_locked_amount > 0 {
        accs.user_info_acc.lp_locker_count = accs.user_info_acc.lp_locker_count + 1;
    }
    accs.user_info_lp_tracker_acc.bump = bumps.user_info_lp_tracker_acc;
    accs.user_info_lp_tracker_acc.associated_locker_ids.push(next_id);
    accs.config_account.config.next_locker_unique_id = next_id + 1;
    let event = OnSplitLock {
        lock_id: accs.new_lp_locker_acc.lock_global_id,
        old_lock_id: accs.lp_locker_acc.lock_global_id,
        lp_token: accs.new_lp_locker_acc.amm_id,
        owner: accs.new_lp_locker_acc.lock_owner,
        amount_remaining_in_old_lock: accs.lp_locker_acc.current_locked_amount,
        amount_removed: amount_split_into_new_locker,
        unlock_date: accs.lp_locker_acc.unlock_date,
    };
    Ok(SplitOutcome { fee_transfer, event })
}

} // verus!
