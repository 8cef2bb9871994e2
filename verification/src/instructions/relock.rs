//! Extending a lock to a later unlock date.
use vstd::prelude::*;
use crate::accounts_ix::relock::RelockLp;
use crate::constants::INVALID_TIME_BOUND;
use crate::error::{LockerError, UncxLpError};
use crate::fee_laws::lemma_liquidity_fee_units_is_ceiling;
use crate::fees::{liquidity_fee_units, spec_fee_units};
use crate::state::events::OnRelock;
use crate::state::token_lock::TokenLock;
use crate::utils::{token_transfer_signed, TokenAction};

verus! {

/// What an extension does besides updating the lock: the liquidity fee it sends from the vault
/// to the dev wallet, and the event it reports.
#[derive(Clone, Copy, Debug, PartialEq, Eq)]
pub struct RelockOutcome {
    pub liquidity_fee_transfer: TokenAction,
    pub event: OnRelock,
}

/// Why an extension to `new_unlock_date` at time `now` is refused, if it is.
pub open spec fn spec_relock_error(lock: TokenLock, now: i64, new_unlock_date: i64) -> Option<LockerError> {
    if new_unlock_date >= INVALID_TIME_BOUND {
        Some(LockerError::Uncx(UncxLpError::InvalidTimeBoundError))
    } else if new_unlock_date <= lock.unlock_date {
        Some(LockerError::Uncx(UncxLpError::RelockUnlockDateInvalid))
    } else if new_unlock_date <= now {
        Some(LockerError::Uncx(UncxLpError::InvalidUnlockDateError))
    } else {
        None
    }
}

/// What `handle_relock_lp` does: the accounts before (`o`) and after (`f`), and its result.
pub open spec fn relock_lp_effect(
    o: RelockLp,
    f: RelockLp,
    r: Result<RelockOutcome, LockerError>,
    now: i64,
    lock_id: u64,
    new_unlock_date: i64,
) -> bool {
    &&& f.config_account == o.config_account
    &&& f.lock_owner == o.lock_owner
    &&& f.uncx_authority_acc == o.uncx_authority_acc
    &&& f.uncx_lock_lp_vault_acc == o.uncx_lock_lp_vault_acc
    &&& f.dev_lp_token_account == o.dev_lp_token_account
    &&& match spec_relock_error(o.lp_locker_acc, now, new_unlock_date) {
        Some(e) => r == Err::<RelockOutcome, LockerError>(e) && f.lp_locker_acc == o.lp_locker_acc,
        None => {
            let old_lock = o.lp_locker_acc;
            let fee = spec_fee_units(
                old_lock.current_locked_amount as int,
                o.config_account.config.fee_config.liquidity_fee_bps as int,
            );
            let new_lock = TokenLock {
                current_locked_amount: (old_lock.current_locked_amount - fee) as u64,
                unlock_date: new_unlock_date,
                ..old_lock
            };
            &&& r matches Ok(out) && out == (RelockOutcome {
                liquidity_fee_transfer: TokenAction::SignedTokenTransfer {
                    from: o.uncx_lock_lp_vault_acc.key,
                    to: o.dev_lp_token_account.key,
                    authority: o.uncx_authority_acc,
                    authority_bump: o.config_account.uncx_authority_bump,
                    amount: fee as u64,
                },
                event: OnRelock {
                    lock_id,
                    lp_token: old_lock.amm_id,
                    owner: old_lock.lock_owner,
                    amount_remaining_in_lock: new_lock.current_locked_amount,
                    liquidity_fee: fee as u64,
                    unlock_date: new_unlock_date,
                },
            })
            &&& f.lp_locker_acc == new_lock
        },
        }
}

/// Moves the unlock date of a lock to a later date, in the future and before the time bound,
/// and charges the liquidity fee on the locked amount: the fee leaves the lock for the dev
/// wallet.
pub fn handle_relock_lp(accs: &mut RelockLp, now: i64, lock_id: u64, new_unlock_date: i64) -> (r: Result<
    RelockOutcome,
    LockerError,
>)
    requires
        old(accs).config_account.wf(),
    ensures
        relock_lp_effect(*old(accs), *final(accs), r, now, lock_id, new_unlock_date),
{
    if new_unlock_date >= INVALID_TIME_BOUND {
        return Err(LockerError::Uncx(UncxLpError::InvalidTimeBoundError));
    }
    if new_unlock_date <= accs.lp_locker_acc.unlock_date {
        return Err(LockerError::Uncx(UncxLpError::RelockUnlockDateInvalid));
    }
    if new_unlock_date <= now {
        return Err(LockerError::Uncx(UncxLpError::InvalidUnlockDateError));
    }
    let fee_bps = accs.config_account.config.fee_config.liquidity_fee_bps;
    proof {
        lemma_liquidity_fee_units_is_ceiling(accs.lp_locker_acc.current_locked_amount, fee_bps);
    }
    let precise_liq_fee = liquidity_fee_units(accs.lp_locker_acc.current_locked_amount, fee_bps)?;
    accs.lp_locker_acc.current_locked_amount = accs.lp_locker_acc.current_locked_amount - precise_liq_fee;
    accs.lp_locker_acc.unlock_date = new_unlock_date;
    let liquidity_fee_transfer = token_transfer_signed(
        precise_liq_fee,
        accs.uncx_lock_lp_vault_acc.key,
        accs.dev_lp_token_account.key,
        accs.uncx_authority_acc,
        accs.config_account.uncx_authority_bump,
    );
    let event = OnRelock {
        lock_id,
        lp_token: accs.lp_locker_acc.amm_id,
        owner: accs.lp_locker_acc.lock_owner,
        amount_remaining_in_lock: accs.lp_locker_acc.current_locked_amount,
        liquidity_fee: precise_liq_fee,
        unlock_date: new_unlock_date,
    };
    Ok(RelockOutcome { liquidity_fee_transfer, event })
}

} // verus!
