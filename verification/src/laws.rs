//! Properties of the locker that span its instructions: what each keeps, what one undoes of
//! another, and what can never happen.
use vstd::prelude::*;
use crate::accounts_ix::admin_ix::AdminIx;
use crate::accounts_ix::lock_lp::CreateAndLockLp;
use crate::accounts_ix::migrate::MigrateLp;
use crate::accounts_ix::relock::RelockLp;
use crate::accounts_ix::split_lock::{SplitLock, SplitLockBumps};
use crate::accounts_ix::increment_lock_lp::IncrementLockLp;
use crate::accounts_ix::transfer_lock_ownership::{TransferLockOwnership, TransferLockOwnershipBumps};
use crate::accounts_ix::withdraw_lp::WithdrawLp;
use crate::instructions::increment_lock_lp::{increment_lock_lp_effect, spec_increment_fee, IncrementOutcome};
use crate::instructions::transfer_lock_ownership::{transfer_lock_ownership_effect, TransferOwnershipOutcome};
use crate::instructions::withdraw_lp::{withdraw_lp_effect, WithdrawOutcome};
use crate::utils::TokenAction;
use crate::error::LockerError;
use crate::fee_laws::{lemma_liquidity_fee_units_is_ceiling, lemma_settlement_conserves_lock_amount, lemma_settlement_total_for_valid_config};
use crate::fees::{spec_fee_units, FeePaymentMethod};
use crate::instructions::admin_ix::blacklist_management::{
    add_country_to_blacklist_effect, remove_country_from_blacklist_effect,
};
use crate::instructions::admin_ix::set_fees::set_fees_effect;
use crate::accounts_ix::lock_lp::CreateAndLockLpBumps;
use crate::constants::INVALID_TIME_BOUND;
use crate::instructions::lock_lp::{if_positive, secondary_authority, spec_flat_fee_actions, NewLockOutcome, create_and_lock_lp_effect, spec_create_lock_error, spec_lock_settlement};
use crate::instructions::relock::{relock_lp_effect, RelockOutcome};
use crate::instructions::split_lock::{split_lock_effect, SplitOutcome};
use crate::pubkey::Pubkey;
use crate::raydium_port::calc_reserves::{
    actual_reserves_defined, pnl_product_grew, spec_coin_pnl, spec_pc_pnl, spec_actual_reserves, spec_normalized, spec_totals_without_take_pnl,
    spec_x2, spec_y2,
};
use crate::raydium_port::math::{lemma_pow10_grows, pow10, spec_restore_decimal};
use crate::raydium_port::state::{AmmInfo, TargetOrders};
use crate::state::configuration::swap_removed;
use crate::state::search::{first_position, is_first_position, lemma_first_position_exists, lemma_first_position_unique};
use vstd::set_lib::{lemma_int_range, lemma_len_subset, set_int_range};

verus! {

/// A split moves tokens between locks without creating or losing any: what the old lock keeps
/// and what the new lock holds add up to what the old lock held. The new lock takes the next
/// lock id, which then advances by one, and records the old lock's LP mint, pool, owner, country
/// and dates (the old lock keeps them too); the
/// payer pays the native fee to the dev wallet, and no transfer is made when that fee is zero.
pub proof fn lemma_split_conserves_locked_amount(
    o: SplitLock,
    f: SplitLock,
    r: Result<SplitOutcome, LockerError>,
    bumps: SplitLockBumps,
    old_lock_id: u64,
    amount: u64,
)
    requires
        split_lock_effect(o, f, r, bumps, old_lock_id, amount),
        r is Ok,
    ensures
        f.lp_locker_acc.current_locked_amount + f.new_lp_locker_acc.current_locked_amount
            == o.lp_locker_acc.current_locked_amount,
        f.new_lp_locker_acc.lock_global_id == o.config_account.config.next_locker_unique_id,
        f.config_account.config.next_locker_unique_id == o.config_account.config.next_locker_unique_id + 1,
        f.new_lp_locker_acc.lock_owner == o.lp_locker_acc.lock_owner,
        f.new_lp_locker_acc.amm_id == o.lp_locker_acc.amm_id,
        f.new_lp_locker_acc.lp_mint == o.lp_locker_acc.lp_mint,
        f.new_lp_locker_acc.country_code == o.lp_locker_acc.country_code,
        f.new_lp_locker_acc.lock_date == o.lp_locker_acc.lock_date,
        f.new_lp_locker_acc.initial_lock_amount == amount,
        f.new_lp_locker_acc.current_locked_amount == amount,
        f.lp_locker_acc.lp_mint == o.lp_locker_acc.lp_mint,
        f.lp_locker_acc.amm_id == o.lp_locker_acc.amm_id,
        f.lp_locker_acc.lock_owner == o.lp_locker_acc.lock_owner,
        f.new_lp_locker_acc.unlock_date == o.lp_locker_acc.unlock_date,
        f.lp_locker_acc.unlock_date == o.lp_locker_acc.unlock_date,
        r->Ok_0.fee_transfer == (if o.config_account.config.fee_config.native_fee > 0 {
            Some(
                TokenAction::NativeTransfer {
                    from: o.payer,
                    to: o.dev_wallet,
                    amount: o.config_account.config.fee_config.native_fee,
                },
            )
        } else {
            None
        }),
{
}

/// No withdrawal is ever accepted before a lock's unlock date has passed.
pub proof fn lemma_no_withdrawal_before_unlock(accs: WithdrawLp, locker_id: u64, withdraw_amount: u64, now: i64)
    requires
        now <= accs.lp_locker_acc.unlock_date,
    ensures
        accs.spec_validate(locker_id, withdraw_amount, now) is Err,
{
}

/// Only a lock's owner can extend, split, hand over, withdraw from or migrate the lock: with any
/// other signer each of these instructions is refused.
pub proof fn lemma_only_owner_acts_on_lock(
    relock: RelockLp,
    split: SplitLock,
    transfer: TransferLockOwnership,
    withdraw: WithdrawLp,
    migrate: MigrateLp,
    lock_id: u64,
    amount: u64,
    new_owner: Pubkey,
    now: i64,
)
    requires
        relock.lock_owner != relock.lp_locker_acc.lock_owner,
        split.lock_owner != split.lp_locker_acc.lock_owner,
        transfer.lock_owner != transfer.lp_locker_acc.lock_owner,
        withdraw.lock_owner != withdraw.lp_locker_acc.lock_owner,
        migrate.lock_owner != migrate.lp_locker_acc.lock_owner,
    ensures
        relock.spec_validate(lock_id) is Err,
        split.spec_validate(lock_id, amount) is Err,
        transfer.spec_validate(lock_id, new_owner) is Err,
        withdraw.spec_validate(lock_id, amount, now) is Err,
        migrate.spec_validate(lock_id, amount) is Err,
{
}

/// A blacklist free of repeated codes holds at most 256 codes, one per `u8` value.
proof fn lemma_distinct_codes_at_most_256(s: Seq<u8>)
    requires
        s.no_duplicates(),
    ensures
        s.len() <= 256,
{
    let t = s.map_values(|x: u8| x as int);
    assert(t.no_duplicates()) by {
        assert forall|i: int, j: int| 0 <= i < t.len() && 0 <= j < t.len() && i != j implies t[i] != t[j] by {
            assert(s[i] != s[j]);
        }
    }
    t.unique_seq_to_set();
    lemma_int_range(0, 256);
    assert(t.to_set().subset_of(set_int_range(0, 256))) by {
        assert forall|v: int| t.to_set().contains(v) implies set_int_range(0, 256).contains(v) by {
            assert(t.contains(v));
            let i = choose|i: int| 0 <= i < t.len() && t[i] == v;
            assert(t[i] == s[i] as int);
        }
    }
    lemma_len_subset(t.to_set(), set_int_range(0, 256));
}

/// Adding a country keeps a blacklist free of repeated codes, whether the country is accepted
/// or refused; such a blacklist never holds more than 256 codes.
pub proof fn lemma_blacklist_add_keeps_codes_distinct(
    o: AdminIx,
    f: AdminIx,
    r: Result<(), LockerError>,
    country_code: u8,
)
    requires
        o.config_account.blacklisted_countries@.no_duplicates(),
        add_country_to_blacklist_effect(o, f, r, country_code),
    ensures
        f.config_account.blacklisted_countries@.no_duplicates(),
        f.config_account.blacklisted_countries@.len() <= 256,
{
    let s = o.config_account.blacklisted_countries@;
    let t = f.config_account.blacklisted_countries@;
    if r is Ok {
        assert(t == s.push(country_code));
        assert forall|i: int, j: int| 0 <= i < t.len() && 0 <= j < t.len() && i != j implies t[i] != t[j] by {
            if i < s.len() && j < s.len() {
                assert(t[i] == s[i] && t[j] == s[j]);
            } else if i < s.len() {
                assert(t[i] == s[i]);
            } else {
                assert(t[j] == s[j]);
            }
        }
    }
    lemma_distinct_codes_at_most_256(t);
}

/// Removing a country keeps a blacklist free of repeated codes, whether the country is found or
/// not.
pub proof fn lemma_blacklist_remove_keeps_codes_distinct(
    o: AdminIx,
    f: AdminIx,
    r: Result<(), LockerError>,
    country_code: u8,
)
    requires
        o.config_account.blacklisted_countries@.no_duplicates(),
        remove_country_from_blacklist_effect(o, f, r, country_code),
    ensures
        f.config_account.blacklisted_countries@.no_duplicates(),
{
    let s = o.config_account.blacklisted_countries@;
    let t = f.config_account.blacklisted_countries@;
    if r is Ok {
        lemma_first_position_exists(s, country_code);
        let k = first_position(s, country_code);
        let last = s.len() - 1;
        assert(t == swap_removed(s, k));
        assert forall|i: int, j: int| 0 <= i < t.len() && 0 <= j < t.len() && i != j implies t[i] != t[j] by {
            let si = if i == k { last } else { i };
            let sj = if j == k { last } else { j };
            assert(t[i] == s[si]);
            assert(t[j] == s[sj]);
            assert(si != sj);
        }
    }
}

/// An extension is accepted exactly when the new unlock date is before the time bound, later
/// than the lock's current unlock date and later than now, whether or not the current unlock
/// date has already passed. An accepted extension moves the unlock date to the new date and
/// takes `ceil(amount * liquidity_fee_bps / 10000)` out of the lock, which the dev LP account
/// receives.
pub proof fn lemma_relock_accepts_any_later_future_date(
    o: RelockLp,
    f: RelockLp,
    r: Result<RelockOutcome, LockerError>,
    now: i64,
    lock_id: u64,
    new_unlock_date: i64,
)
    requires
        o.config_account.wf(),
        relock_lp_effect(o, f, r, now, lock_id, new_unlock_date),
    ensures
        r is Ok <==> (new_unlock_date < INVALID_TIME_BOUND && new_unlock_date > o.lp_locker_acc.unlock_date
            && new_unlock_date > now),
        r matches Ok(out) && {
            let amount = o.lp_locker_acc.current_locked_amount as int;
            let fee = (amount * o.config_account.config.fee_config.liquidity_fee_bps + 10000 - 1) / 10000;
            &&& f.lp_locker_acc.unlock_date == new_unlock_date
            &&& f.lp_locker_acc.current_locked_amount + fee == amount
            &&& out.liquidity_fee_transfer matches TokenAction::SignedTokenTransfer { from, to, amount: moved, .. }
                && from == o.uncx_lock_lp_vault_acc.key && to == o.dev_lp_token_account.key && moved == fee
        } || r is Err,
        r is Err ==> f.lp_locker_acc == o.lp_locker_acc,
{
    lemma_liquidity_fee_units_is_ceiling(
        o.lp_locker_acc.current_locked_amount,
        o.config_account.config.fee_config.liquidity_fee_bps,
    );
}

/// The flat fee of a new lock reaches its recipients: paid natively, the dev wallet gets the dev
/// fee and the referral wallet its share; paid in the secondary token, the referral's
/// secondary-token account gets its share from the locker's secondary-token account and the
/// rest of the fee is burnt from it. A movement is made whenever its amount is positive.
pub proof fn lemma_new_lock_pays_flat_fees(
    o: CreateAndLockLp,
    f: CreateAndLockLp,
    r: Result<NewLockOutcome, LockerError>,
    bumps: CreateAndLockLpBumps,
    now: i64,
    lock_owner: Pubkey,
    lock_amount: u64,
    unlock_date: i64,
    country_code: u8,
    referral: Option<Pubkey>,
    method: FeePaymentMethod,
)
    requires
        create_and_lock_lp_effect(o, f, r, bumps, now, lock_owner, lock_amount, unlock_date, country_code, referral, method),
        r is Ok,
    ensures
        ({
            let out = r->Ok_0;
            let s = out.settlement;
            let payer_of_secondary = match o.user_secondary_token_authority_acc {
                Some(a) => a,
                None => o.payer,
            };
            &&& method == FeePaymentMethod::NonNative && s.referral_share_fee > 0 ==> out.actions@.contains(
                TokenAction::TokenTransfer {
                    from: o.user_secondary_token_account->0.key,
                    to: o.referral_secondary_token_account->0.key,
                    authority: payer_of_secondary,
                    amount: s.referral_share_fee,
                },
            )
            &&& method == FeePaymentMethod::NonNative && s.secondary_token_burn_amount > 0 ==> out.actions@.contains(
                TokenAction::Burn {
                    from: o.user_secondary_token_account->0.key,
                    mint: o.secondary_token_mint->0,
                    authority: payer_of_secondary,
                    amount: s.secondary_token_burn_amount,
                },
            )
            &&& method == FeePaymentMethod::Native && s.dev_fee > 0 ==> out.actions@.contains(
                TokenAction::NativeTransfer { from: o.payer, to: o.dev_wallet->0, amount: s.dev_fee },
            )
            &&& method == FeePaymentMethod::Native && s.referral_share_fee > 0 ==> out.actions@.contains(
                TokenAction::NativeTransfer { from: o.payer, to: o.referral_wallet->0, amount: s.referral_share_fee },
            )
        }),
{
    let out = r->Ok_0;
    let s = out.settlement;
    let flat = spec_flat_fee_actions(o, s, referral, method)->Ok_0;
    let all = out.actions@;
    assert(all.subrange(0, flat.len() as int) =~= flat);
    if method == FeePaymentMethod::NonNative {
        let t = if_positive(s.referral_share_fee, TokenAction::TokenTransfer {
            from: o.user_secondary_token_account->0.key,
            to: o.referral_secondary_token_account->0.key,
            authority: secondary_authority(o),
            amount: s.referral_share_fee,
        });
        if s.referral_share_fee > 0 {
            assert(all[0] == flat[0]);
            assert(all.contains(all[0]));
        }
        if s.secondary_token_burn_amount > 0 {
            let k = t.len() as int;
            assert(all[k] == flat[k]);
            assert(all.contains(all[k]));
        }
    } else if method == FeePaymentMethod::Native {
        let t = if_positive(s.dev_fee, TokenAction::NativeTransfer { from: o.payer, to: o.dev_wallet->0, amount: s.dev_fee });
        if s.dev_fee > 0 {
            assert(all[0] == flat[0]);
            assert(all.contains(all[0]));
        }
        if s.referral_share_fee > 0 {
            let k = t.len() as int;
            assert(all[k] == flat[k]);
            assert(all.contains(all[k]));
        }
    }
}

/// Blacklisting a country that was not blacklisted and then taking it off again gives back the
/// blacklist as it was.
pub proof fn lemma_blacklist_add_then_remove_restores(
    o: AdminIx,
    m: AdminIx,
    f: AdminIx,
    country_code: u8,
)
    requires
        !o.config_account.blacklisted_countries@.contains(country_code),
        add_country_to_blacklist_effect(o, m, Ok(()), country_code),
        remove_country_from_blacklist_effect(m, f, Ok(()), country_code),
    ensures
        f.config_account.blacklisted_countries@ == o.config_account.blacklisted_countries@,
        f.config_account.config == o.config_account.config,
{
    let s = o.config_account.blacklisted_countries@;
    let t = s.push(country_code);
    assert(m.config_account.blacklisted_countries@ == t);
    let last = s.len() as int;
    assert(is_first_position(t, country_code, last)) by {
        assert forall|j: int| 0 <= j < last implies t[j] != country_code by {
            assert(t[j] == s[j]);
        }
    }
    lemma_first_position_unique(t, country_code, last);
    assert(swap_removed(t, last) =~= s);
}

/// Withdrawing everything from a newly created lock undoes the lock's tracking: its owner's
/// tracker and lock count are as they were before the lock was created (when the tracker did
/// not list the new lock's id before).
pub proof fn lemma_withdraw_all_undoes_lock_tracking(
    c_o: CreateAndLockLp,
    c_f: CreateAndLockLp,
    c_r: Result<NewLockOutcome, LockerError>,
    bumps: crate::accounts_ix::lock_lp::CreateAndLockLpBumps,
    now: i64,
    lock_owner: Pubkey,
    lock_amount: u64,
    unlock_date: i64,
    country_code: u8,
    referral: Option<Pubkey>,
    method: FeePaymentMethod,
    w_o: WithdrawLp,
    w_f: WithdrawLp,
    w_r: Result<WithdrawOutcome, LockerError>,
)
    requires
        create_and_lock_lp_effect(c_o, c_f, c_r, bumps, now, lock_owner, lock_amount, unlock_date, country_code, referral, method),
        c_r is Ok,
        c_o.user_info_acc.lp_locker_count < u64::MAX,
        !c_o.user_info_lp_tracker_acc.associated_locker_ids@.contains(c_o.config_account.config.next_locker_unique_id),
        w_o.lp_locker_acc == c_f.lp_locker_acc,
        w_o.user_info_lp_tracker_acc == Some(c_f.user_info_lp_tracker_acc),
        w_o.user_info_acc == Some(c_f.user_info_acc),
        withdraw_lp_effect(
            w_o,
            w_f,
            w_r,
            c_f.lp_locker_acc.lock_global_id,
            c_f.lp_locker_acc.current_locked_amount,
        ),
        w_r is Ok,
    ensures
        w_f.lp_locker_acc.current_locked_amount == 0,
        w_f.user_info_lp_tracker_acc matches Some(t)
            && t.associated_locker_ids@ == c_o.user_info_lp_tracker_acc.associated_locker_ids@,
        w_f.user_info_acc matches Some(u) && u.lp_locker_count == c_o.user_info_acc.lp_locker_count,
{
    let s = c_o.user_info_lp_tracker_acc.associated_locker_ids@;
    let id = c_o.config_account.config.next_locker_unique_id;
    let t = s.push(id);
    assert(c_f.user_info_lp_tracker_acc.associated_locker_ids@ == t);
    let last = s.len() as int;
    assert(is_first_position(t, id, last)) by {
        assert forall|j: int| 0 <= j < last implies t[j] != id by {
            assert(t[j] == s[j]);
        }
    }
    lemma_first_position_unique(t, id, last);
    assert(t.remove(last) =~= s);
}

/// A blacklisted country can never create a lock.
pub proof fn lemma_blacklisted_country_cannot_lock(
    accs: CreateAndLockLp,
    now: i64,
    lock_amount: u64,
    unlock_date: i64,
    country_code: u8,
    referral: Option<Pubkey>,
    method: FeePaymentMethod,
)
    requires
        accs.config_account.blacklisted_countries@.contains(country_code),
    ensures
        spec_create_lock_error(accs, now, lock_amount, unlock_date, country_code, referral, method) is Some,
{
}

/// A new lock holds exactly what the locker sent minus the liquidity fee, under the next lock
/// id, which then advances by one; it unlocks in the future and before the time bound; it was
/// not made for a blacklisted country or for a zero amount.
pub proof fn lemma_new_lock_holds_amount_after_fee(
    o: CreateAndLockLp,
    f: CreateAndLockLp,
    r: Result<NewLockOutcome, LockerError>,
    bumps: crate::accounts_ix::lock_lp::CreateAndLockLpBumps,
    now: i64,
    lock_owner: Pubkey,
    lock_amount: u64,
    unlock_date: i64,
    country_code: u8,
    referral: Option<Pubkey>,
    method: FeePaymentMethod,
)
    requires
        o.config_account.wf(),
        o.config_account.config.next_locker_unique_id < u64::MAX,
        create_and_lock_lp_effect(o, f, r, bumps, now, lock_owner, lock_amount, unlock_date, country_code, referral, method),
        r is Ok,
    ensures
        f.lp_locker_acc.current_locked_amount + r->Ok_0.settlement.lp_fee_amount == lock_amount,
        f.lp_locker_acc.initial_lock_amount == f.lp_locker_acc.current_locked_amount,
        f.lp_locker_acc.lock_global_id == o.config_account.config.next_locker_unique_id,
        f.config_account.config.next_locker_unique_id == o.config_account.config.next_locker_unique_id + 1,
        f.lp_locker_acc.lock_owner == lock_owner,
        now < f.lp_locker_acc.unlock_date < crate::constants::INVALID_TIME_BOUND,
        lock_amount > 0,
        !o.config_account.blacklisted_countries@.contains(country_code),
{
    lemma_settlement_total_for_valid_config(o.config_account.config.fee_config, lock_amount, referral is Some, method);
    lemma_settlement_conserves_lock_amount(o.config_account.config.fee_config, lock_amount, referral is Some, method);
    assert(spec_lock_settlement(o, lock_amount, referral, method) == r->Ok_0.settlement);
}

/// Setting the fees keeps the configuration's invariant: accepted settings are at most 100 %.
pub proof fn lemma_set_fees_keeps_invariant(o: AdminIx, f: AdminIx, r: Result<(), LockerError>, new_fees: crate::state::configuration::FeesConfig)
    requires
        o.config_account.wf(),
        set_fees_effect(o, f, r, new_fees),
    ensures
        f.config_account.wf(),
{
}

/// An extension only ever moves a lock's unlock date later, into the future and before the time
/// bound; the lock keeps what it held minus the liquidity fee, which the dev wallet receives.
pub proof fn lemma_relock_only_extends(
    o: RelockLp,
    f: RelockLp,
    r: Result<RelockOutcome, LockerError>,
    now: i64,
    lock_id: u64,
    new_unlock_date: i64,
)
    requires
        o.config_account.wf(),
        relock_lp_effect(o, f, r, now, lock_id, new_unlock_date),
        r is Ok,
    ensures
        f.lp_locker_acc.unlock_date == new_unlock_date,
        o.lp_locker_acc.unlock_date < f.lp_locker_acc.unlock_date,
        now < f.lp_locker_acc.unlock_date < crate::constants::INVALID_TIME_BOUND,
        f.lp_locker_acc.current_locked_amount + r->Ok_0.event.liquidity_fee == o.lp_locker_acc.current_locked_amount,
        f.lp_locker_acc.lock_owner == o.lp_locker_acc.lock_owner,
{
    lemma_liquidity_fee_units_is_ceiling(
        o.lp_locker_acc.current_locked_amount,
        o.config_account.config.fee_config.liquidity_fee_bps,
    );
}

/// An extension charges `ceil(amount * liquidity_fee_bps / 10000)` of the locked amount, never
/// more than it holds, and leaves the lock with the rest.
pub proof fn lemma_relock_fee_bounded(amount: u64, liquidity_fee_bps: u16)
    requires
        liquidity_fee_bps <= crate::constants::MAX_BASIS_POINTS,
    ensures
        0 <= spec_fee_units(amount as int, liquidity_fee_bps as int) <= amount,
{
    lemma_liquidity_fee_units_is_ceiling(amount, liquidity_fee_bps);
}

/// A transfer of ownership gives the lock to the new owner and lists it in the new owner's
/// tracker; the old owner's count drops by one and the new owner's grows by one.
pub proof fn lemma_transfer_moves_lock(
    o: TransferLockOwnership,
    f: TransferLockOwnership,
    r: Result<TransferOwnershipOutcome, LockerError>,
    bumps: TransferLockOwnershipBumps,
    lock_id: u64,
    new_owner: Pubkey,
)
    requires
        transfer_lock_ownership_effect(o, f, r, bumps, lock_id, new_owner),
        r is Ok,
        o.old_user_info_lp_tracker_acc.associated_locker_ids@.contains(lock_id) ==> o.old_user_info_acc.lp_locker_count > 0,
        o.new_user_info_acc.lp_locker_count < u64::MAX,
    ensures
        f.lp_locker_acc.lock_owner == new_owner,
        f.lp_locker_acc.current_locked_amount == o.lp_locker_acc.current_locked_amount,
        f.new_user_info_lp_tracker_acc.associated_locker_ids@.contains(lock_id),
        f.old_user_info_acc.lp_locker_count + 1 == o.old_user_info_acc.lp_locker_count,
        f.new_user_info_acc.lp_locker_count == o.new_user_info_acc.lp_locker_count + 1,
        f.new_user_info_acc.user == new_owner,
{
    let ids = f.new_user_info_lp_tracker_acc.associated_locker_ids@;
    assert(ids[ids.len() - 1] == lock_id);
}

/// A withdrawal takes exactly the amount withdrawn out of the lock and sends exactly that amount
/// to the owner.
pub proof fn lemma_withdraw_conserves_amount(
    o: WithdrawLp,
    f: WithdrawLp,
    r: Result<WithdrawOutcome, LockerError>,
    lock_id: u64,
    withdraw_amount: u64,
)
    requires
        withdraw_lp_effect(o, f, r, lock_id, withdraw_amount),
        r is Ok,
        withdraw_amount <= o.lp_locker_acc.current_locked_amount,
    ensures
        f.lp_locker_acc.current_locked_amount + withdraw_amount == o.lp_locker_acc.current_locked_amount,
        r->Ok_0.transfer == (TokenAction::SignedTokenTransfer {
            from: o.uncx_lock_lp_vault_acc.key,
            to: o.user_lp_token_acc.key,
            authority: o.uncx_authority_acc,
            authority_bump: o.config_account.uncx_authority_bump,
            amount: withdraw_amount,
        }),
        f.lp_locker_acc.lock_owner == o.lp_locker_acc.lock_owner,
        f.lp_locker_acc.unlock_date == o.lp_locker_acc.unlock_date,
{
}

/// A top-up never lowers a lock: it grows by the amount added minus a liquidity fee of at most
/// that amount.
pub proof fn lemma_increment_never_decreases(
    o: IncrementLockLp,
    f: IncrementLockLp,
    r: Result<IncrementOutcome, LockerError>,
    lock_id: u64,
    amount: u64,
)
    requires
        o.config_account.wf(),
        o.lp_locker_acc.current_locked_amount + amount - spec_increment_fee(o, amount) <= u64::MAX,
        increment_lock_lp_effect(o, f, r, lock_id, amount),
    ensures
        r is Ok,
        f.lp_locker_acc.current_locked_amount >= o.lp_locker_acc.current_locked_amount,
        f.lp_locker_acc.current_locked_amount == o.lp_locker_acc.current_locked_amount + amount - spec_increment_fee(o, amount),
        0 <= spec_increment_fee(o, amount) <= amount,
{
    lemma_liquidity_fee_units_is_ceiling(amount, o.config_account.config.fee_config.liquidity_fee_bps);
}

/// The true reserves of a pool never exceed its totals before the pending profit and loss is
/// taken (which they equal in withdraw-only mode), nor what its vaults hold.
pub proof fn lemma_actual_reserves_within_vaults(
    amm: AmmInfo,
    target: TargetOrders,
    pc_vault_amount: u64,
    coin_vault_amount: u64,
)
    requires
        actual_reserves_defined(amm, target, pc_vault_amount, coin_vault_amount),
        spec_actual_reserves(amm, target, pc_vault_amount, coin_vault_amount) is Ok,
    ensures
        spec_totals_without_take_pnl(amm, pc_vault_amount, coin_vault_amount) matches Some(t) && {
            let res = spec_actual_reserves(amm, target, pc_vault_amount, coin_vault_amount)->Ok_0;
            &&& res.1 <= t.0 && res.2 <= t.1
            &&& amm.status == 3 ==> res.1 == t.0 && res.2 == t.1
        },
        spec_actual_reserves(amm, target, pc_vault_amount, coin_vault_amount)->Ok_0.1 <= pc_vault_amount,
        spec_actual_reserves(amm, target, pc_vault_amount, coin_vault_amount)->Ok_0.2 <= coin_vault_amount,
        spec_actual_reserves(amm, target, pc_vault_amount, coin_vault_amount)->Ok_0.0 == amm.lp_amount,
{
    let totals = spec_totals_without_take_pnl(amm, pc_vault_amount, coin_vault_amount)->0;
    let (pc, coin) = totals;
    let xy = spec_normalized(amm, pc, coin);
    if amm.status != 3 && pnl_product_grew(target, amm, pc as int, coin as int) {
        let x2 = spec_x2(target, xy.0, xy.1);
        let y2 = spec_y2(target, xy.0, xy.1);
        lemma_restore_nonnegative(xy.0 - x2, amm.pc_decimals as nat, amm.sys_decimal_value as int);
        lemma_restore_nonnegative(xy.1 - y2, amm.coin_decimals as nat, amm.sys_decimal_value as int);
        let rp = spec_restore_decimal(xy.0 - x2, amm.pc_decimals as nat, amm.sys_decimal_value as int);
        let rc = spec_restore_decimal(xy.1 - y2, amm.coin_decimals as nat, amm.sys_decimal_value as int);
        let num = amm.fees.pnl_numerator as int;
        let den = amm.fees.pnl_denominator as int;
        assert((rp * num) / den >= 0) by (nonlinear_arith)
            requires
                rp >= 0,
                num >= 0,
                den > 0,
        ;
        assert((rc * num) / den >= 0) by (nonlinear_arith)
            requires
                rc >= 0,
                num >= 0,
                den > 0,
        ;
    }
}

/// The true reserves of a pool that is not in withdraw-only mode and takes profit and loss are
/// its totals minus the pool's share of the growth on each side, computed at the current price
/// (see `lemma_take_pnl_keeps_current_price` in the reserve computation).
pub proof fn lemma_actual_reserves_net_of_pnl(
    amm: AmmInfo,
    target: TargetOrders,
    pc_vault_amount: u64,
    coin_vault_amount: u64,
)
    requires
        actual_reserves_defined(amm, target, pc_vault_amount, coin_vault_amount),
        spec_actual_reserves(amm, target, pc_vault_amount, coin_vault_amount) is Ok,
        amm.status != 3,
    ensures
        spec_totals_without_take_pnl(amm, pc_vault_amount, coin_vault_amount) matches Some(t) && {
            let xy = spec_normalized(amm, t.0, t.1);
            let res = spec_actual_reserves(amm, target, pc_vault_amount, coin_vault_amount)->Ok_0;
            let pc_pnl = spec_pc_pnl(target, amm, xy.0, xy.1);
            let coin_pnl = spec_coin_pnl(target, amm, xy.0, xy.1);
            &&& pc_pnl != 0 && coin_pnl != 0 ==> res.1 + pc_pnl == t.0 && res.2 + coin_pnl == t.1
            &&& !(pc_pnl != 0 && coin_pnl != 0) ==> res.1 == t.0 && res.2 == t.1
            &&& pnl_product_grew(target, amm, t.0 as int, t.1 as int)
        },
{
    let totals = spec_totals_without_take_pnl(amm, pc_vault_amount, coin_vault_amount)->0;
    let (pc, coin) = totals;
    let xy = spec_normalized(amm, pc, coin);
    let x2 = spec_x2(target, xy.0, xy.1);
    let y2 = spec_y2(target, xy.0, xy.1);
    lemma_restore_nonnegative(xy.0 - x2, amm.pc_decimals as nat, amm.sys_decimal_value as int);
    lemma_restore_nonnegative(xy.1 - y2, amm.coin_decimals as nat, amm.sys_decimal_value as int);
    let rp = spec_restore_decimal(xy.0 - x2, amm.pc_decimals as nat, amm.sys_decimal_value as int);
    let rc = spec_restore_decimal(xy.1 - y2, amm.coin_decimals as nat, amm.sys_decimal_value as int);
    let num = amm.fees.pnl_numerator as int;
    let den = amm.fees.pnl_denominator as int;
    assert((rp * num) / den >= 0) by (nonlinear_arith)
        requires
            rp >= 0,
            num >= 0,
            den > 0,
    ;
    assert((rc * num) / den >= 0) by (nonlinear_arith)
        requires
            rc >= 0,
            num >= 0,
            den > 0,
    ;
}

proof fn lemma_restore_nonnegative(val: int, native_decimal: nat, sys_decimal_value: int)
    requires
        val >= 0,
        sys_decimal_value > 0,
    ensures
        spec_restore_decimal(val, native_decimal, sys_decimal_value) >= 0,
{
    lemma_pow10_grows(0, native_decimal);
    let p = pow10(native_decimal);
    assert((val * p) / sys_decimal_value >= 0) by (nonlinear_arith)
        requires
            val >= 0,
            p >= 1,
            sys_decimal_value > 0,
    ;
}

} // verus!
