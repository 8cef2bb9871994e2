//! Adding tokens to a lock.
use vstd::prelude::*;
use crate::accounts_ix::increment_lock_lp::IncrementLockLp;
use crate::error::LockerError;
use crate::fee_laws::lemma_liquidity_fee_units_is_ceiling;
use crate::fees::{liquidity_fee_units, spec_fee_units};
use crate::state::events::OnIncrementLock;
use crate::state::token_lock::TokenLock;
use crate::utils::{token_transfer, TokenAction};

verus! {

/// What a top-up does besides updating the lock: the liquidity fee it sends to the dev wallet
/// and the rest it sends to the vault (nothing is sent of a zero amount), and the event.
#[derive(Clone, Copy, Debug, PartialEq, Eq)]
pub struct IncrementOutcome {
    pub liquidity_fee_transfer: Option<TokenAction>,
    pub lock_transfer: Option<TokenAction>,
    pub event: OnIncrementLock,
}

/// The liquidity fee on a top-up of `amount` under the accounts' configuration.
pub open spec fn spec_increment_fee(accs: IncrementLockLp, amount: u64) -> int {
    spec_fee_units(amount as int, accs.config_account.config.fee_config.liquidity_fee_bps as int)
}

/// What `handle_increment_lock_lp` does: the accounts before (`o`) and after (`f`), and its result.
pub open spec fn increment_lock_lp_effect(
    o: IncrementLockLp,
    f: IncrementLockLp,
    r: Result<IncrementOutcome, LockerError>,
    lock_id: u64,
    increment_lock_amount: u64,
) -> bool {
    &&& ({
        let fee = spec_increment_fee(o, increment_lock_amount);
        let old_lock = o.lp_locker_acc;
        let new_lock = TokenLock {
            current_locked_amount: (old_lock.current_locked_amount + increment_lock_amount - fee) as u64,
            ..old_lock
        };
        let entity = o.increment_lock_lp_entity_authority_acc;
        let from = o.increment_lock_lp_entity_lp_token_acc.key;
        &&& 0 <= fee <= increment_lock_amount
        &&& r matches Ok(out) && out.event == (OnIncrementLock {
            lock_id,
            lp_token: old_lock.amm_id,
            owner: old_lock.lock_owner,
            entity,
            amount_remaining_in_lock: new_lock.current_locked_amount,
            amount_added: increment_lock_amount,
            liquidity_fee: fee as u64,
        })
        &&& r matches Ok(out) && out.liquidity_fee_transfer == (if fee > 0 {
            Some(TokenAction::TokenTransfer { from, to: o.dev_lp_token_account.key, authority: entity, amount: fee as u64 })
        } else {
            None
        })
        &&& r matches Ok(out) && out.lock_transfer == (if increment_lock_amount - fee > 0 {
            Some(
                TokenAction::TokenTransfer {
                    from,
                    to: o.uncx_lock_lp_vault_acc.key,
                    authority: entity,
                    amount: (increment_lock_amount - fee) as u64,
                },
            )
        } else {
            None
        })
        &&& f == (IncrementLockLp { lp_locker_acc: new_lock, ..o })
        })
}

/// Adds tokens to a lock: the liquidity fee on them goes to the dev wallet, the rest into the
/// vault and onto the lock's amount.
pub fn handle_increment_lock_lp(accs: &mut IncrementLockLp, lock_id: u64, increment_lock_amount: u64) -> (r: Result<
    IncrementOutcome,
    LockerError,
>)
    requires
        old(accs).config_account.wf(),
        old(accs).lp_locker_acc.current_locked_amount + increment_lock_amount - spec_increment_fee(
            *old(accs),
            increment_lock_amount,
        ) <= u64::MAX,
    ensures
        increment_lock_lp_effect(*old(accs), *final(accs), r, lock_id, increment_lock_amount),
{
    let fee_bps = accs.config_account.config.fee_config.liquidity_fee_bps;
    proof {
        lemma_liquidity_fee_units_is_ceiling(increment_lock_amount, fee_bps);
    }
    let precise_liq_fee = liquidity_fee_units(increment_lock_amount, fee_bps)?;
    let net = increment_lock_amount - precise_liq_fee;
    accs.lp_locker_acc.current_locked_amount = accs.lp_locker_acc.current_locked_amount + net;
    let entity = accs.increment_lock_lp_entity_authority_acc;
    let from = accs.increment_lock_lp_entity_lp_token_acc.key;
    let liquidity_fee_transfer = token_transfer(precise_liq_fee, from, accs.dev_lp_token_account.key, entity);
    let lock_transfer = token_transfer(net, from, accs.uncx_lock_lp_vault_acc.key, entity);
    let event = OnIncrementLock {
        lock_id,
        lp_token: accs.lp_locker_acc.amm_id,
        owner: accs.lp_locker_acc.lock_owner,
        entity,
        amount_remaining_in_lock: accs.lp_locker_acc.current_locked_amount,
        amount_added: increment_lock_amount,
        liquidity_fee: precise_liq_fee,
    };
    Ok(IncrementOutcome { liquidity_fee_transfer, lock_transfer, event })
}

} // verus!
