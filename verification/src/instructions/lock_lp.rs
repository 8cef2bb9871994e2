//! Creating a lock: the checks on its inputs, the fees, the reading of the pool's true reserves
//! and token metadata, and the records of the new lock.
use vstd::prelude::*;
use crate::accounts_ix::lock_lp::{
    reserves_readable, spec_checked_reserves, spec_metadata_error, CreateAndLockLp, CreateAndLockLpBumps,
};
use crate::constants::INVALID_TIME_BOUND;
use crate::error::{LockerError, UncxLpError};
use crate::fee_laws::lemma_settlement_total_for_valid_config;
use crate::fees::{calc_settlement, settlement_defined, spec_settlement, FeePaymentMethod, Settlement};
use crate::metadata::spec_metadata_from_bytes;
use crate::pubkey::Pubkey;
use crate::raydium_port::state::{spec_amm_info, AmmInfo, AMM_INFO_SIZE};
use crate::state::configuration::Config;
use crate::state::events::OnNewLock;
use crate::state::token_lock::{GlobalLpMintMarker, TokenLock};
use crate::state::user_info::UserInfoAccount;
use crate::utils::{burn_token, system_program_transfer, token_transfer, TokenAction};

verus! {

/// What creating a lock does besides recording it: the fees and amounts settled, the lamport and
/// token movements, and the event.
#[derive(Clone, Debug, PartialEq, Eq)]
pub struct NewLockOutcome {
    pub settlement: Settlement,
    pub actions: Vec<TokenAction>,
    pub event: OnNewLock,
}

/// Why a lock is refused before any fee is computed, if it is.
pub open spec fn spec_lock_input_error(
    accs: CreateAndLockLp,
    now: i64,
    lock_amount: u64,
    unlock_date: i64,
    country_code: u8,
    referral: Option<Pubkey>,
    method: FeePaymentMethod,
) -> Option<LockerError> {
    if unlock_date >= INVALID_TIME_BOUND {
        Some(LockerError::Uncx(UncxLpError::InvalidTimeBoundError))
    } else if unlock_date <= now {
        Some(LockerError::Uncx(UncxLpError::InvalidUnlockDateError))
    } else if lock_amount == 0 {
        Some(LockerError::Uncx(UncxLpError::ZeroAmountError))
    } else if accs.config_account.blacklisted_countries@.contains(country_code) {
        Some(LockerError::Uncx(UncxLpError::BlackListedCountryError))
    } else if referral is Some && accs.referral_token_account is None {
        Some(LockerError::Uncx(UncxLpError::MissingReferralAccount))
    } else if method == FeePaymentMethod::Whitelisted && accs.user_whitelist_pda_acc is None {
        Some(LockerError::Uncx(UncxLpError::MissingWhitelistAccount))
    } else {
        None
    }
}

/// The account that authorises moving the locker's liquidity tokens: its own authority, else
/// the payer.
pub open spec fn lp_authority(accs: CreateAndLockLp) -> Pubkey {
    match accs.user_lp_token_authority_acc {
        Some(a) => a,
        None => accs.payer,
    }
}

/// The account that authorises moving the locker's secondary tokens: its own authority, else
/// the payer.
pub open spec fn secondary_authority(accs: CreateAndLockLp) -> Pubkey {
    match accs.user_secondary_token_authority_acc {
        Some(a) => a,
        None => accs.payer,
    }
}

/// No movement, or one.
pub open spec fn opt_action(a: Option<TokenAction>) -> Seq<TokenAction> {
    match a {
        Some(x) => seq![x],
        None => Seq::empty(),
    }
}

/// The movement of `amount`, or none when it is zero.
pub open spec fn if_positive(amount: u64, a: TokenAction) -> Seq<TokenAction> {
    if amount > 0 {
        seq![a]
    } else {
        Seq::empty()
    }
}

/// The flat-fee movements of the payment method, or the account missing for one of them.
pub open spec fn spec_flat_fee_actions(
    accs: CreateAndLockLp,
    s: Settlement,
    referral: Option<Pubkey>,
    method: FeePaymentMethod,
) -> Result<Seq<TokenAction>, LockerError> {
    let missing = LockerError::Uncx(UncxLpError::MissingRequiredAccount);
    match method {
        FeePaymentMethod::Whitelisted => Ok(Seq::empty()),
        FeePaymentMethod::Native => if s.dev_fee > 0 && accs.dev_wallet is None {
            Err(missing)
        } else if s.referral_share_fee > 0 && accs.referral_wallet is None {
            Err(missing)
        } else if s.referral_share_fee > 0 && referral is None {
            Err(LockerError::Uncx(UncxLpError::MathError))
        } else if s.referral_share_fee > 0 && referral->0 != accs.referral_wallet->0 {
            Err(missing)
        } else {
            Ok(
                if_positive(s.dev_fee, TokenAction::NativeTransfer { from: accs.payer, to: accs.dev_wallet->0, amount: s.dev_fee })
                    + if_positive(
                    s.referral_share_fee,
                    TokenAction::NativeTransfer {
                        from: accs.payer,
                        to: accs.referral_wallet->0,
                        amount: s.referral_share_fee,
                    },
                ),
            )
        },
        FeePaymentMethod::NonNative => if accs.user_secondary_token_account is None || accs.secondary_token_mint is None {
            Err(missing)
        } else if s.referral_share_fee > 0 && accs.referral_secondary_token_account is None {
            Err(missing)
        } else {
            Ok(
                if_positive(
                    s.referral_share_fee,
                    TokenAction::TokenTransfer {
                        from: accs.user_secondary_token_account->0.key,
                        to: accs.referral_secondary_token_account->0.key,
                        authority: secondary_authority(accs),
                        amount: s.referral_share_fee,
                    },
                ) + if_positive(
                    s.secondary_token_burn_amount,
                    TokenAction::Burn {
                        from: accs.user_secondary_token_account->0.key,
                        mint: accs.secondary_token_mint->0,
                        authority: secondary_authority(accs),
                        amount: s.secondary_token_burn_amount,
                    },
                ),
            )
        },
    }
}

/// All movements of a new lock in order: the flat fees, the liquidity fee to the dev wallet and
/// the locked amount into the vault; or the account missing for one of them.
pub open spec fn spec_fee_actions(
    accs: CreateAndLockLp,
    s: Settlement,
    referral: Option<Pubkey>,
    method: FeePaymentMethod,
) -> Result<Seq<TokenAction>, LockerError> {
    match spec_flat_fee_actions(accs, s, referral, method) {
        Err(e) => Err(e),
        Ok(flat) => if s.lp_fee_amount > 0 && accs.dev_lp_token_account is None {
            Err(LockerError::Uncx(UncxLpError::MissingRequiredAccount))
        } else {
            Ok(
                flat + if_positive(
                    s.lp_fee_amount,
                    TokenAction::TokenTransfer {
                        from: accs.user_lp_token_acc.key,
                        to: accs.dev_lp_token_account->0.key,
                        authority: lp_authority(accs),
                        amount: s.lp_fee_amount,
                    },
                ) + if_positive(
                    s.lock_amount,
                    TokenAction::TokenTransfer {
                        from: accs.user_lp_token_acc.key,
                        to: accs.uncx_lock_lp_vault_acc.key,
                        authority: lp_authority(accs),
                        amount: s.lock_amount,
                    },
                ),
            )
        },
    }
}

/// The settlement of a lock of `lock_amount` under the accounts' configuration.
pub open spec fn spec_lock_settlement(
    accs: CreateAndLockLp,
    lock_amount: u64,
    referral: Option<Pubkey>,
    method: FeePaymentMethod,
) -> Settlement {
    spec_settlement(accs.config_account.config.fee_config, lock_amount, referral is Some, method)->0
}

/// Why a lock is refused, if it is: its inputs, the accounts its fees need, the pool's reserves,
/// the tokens' metadata, in that order.
pub open spec fn spec_create_lock_error(
    accs: CreateAndLockLp,
    now: i64,
    lock_amount: u64,
    unlock_date: i64,
    country_code: u8,
    referral: Option<Pubkey>,
    method: FeePaymentMethod,
) -> Option<LockerError> {
    let s = spec_lock_settlement(accs, lock_amount, referral, method);
    let info = spec_amm_info(accs.amm_info_acc.data@);
    match spec_lock_input_error(accs, now, lock_amount, unlock_date, country_code, referral, method) {
        Some(e) => Some(e),
        None => match spec_fee_actions(accs, s, referral, method) {
            Err(e) => Some(e),
            Ok(_) => match spec_checked_reserves(accs, info) {
                Err(e) => Some(e),
                Ok(_) => spec_metadata_error(accs),
            },
        },
    }
}

/// The inputs are checked and the fee accounts are present, so the pool's reserves are read.
pub open spec fn reaches_reserves(
    accs: CreateAndLockLp,
    now: i64,
    lock_amount: u64,
    unlock_date: i64,
    country_code: u8,
    referral: Option<Pubkey>,
    method: FeePaymentMethod,
) -> bool {
    &&& spec_lock_input_error(accs, now, lock_amount, unlock_date, country_code, referral, method) is None
    &&& spec_fee_actions(accs, spec_lock_settlement(accs, lock_amount, referral, method), referral, method) is Ok
}

fn check_lock_inputs(
    accs: &CreateAndLockLp,
    now: i64,
    lock_amount: u64,
    unlock_date: i64,
    country_code: u8,
    referral: Option<Pubkey>,
    method: FeePaymentMethod,
) -> (r: Result<(), LockerError>)
    ensures
        match spec_lock_input_error(*accs, now, lock_amount, unlock_date, country_code, referral, method) {
            Some(e) => r == Err::<(), LockerError>(e),
            None => r == Ok::<(), LockerError>(()),
        },
{
    if unlock_date >= INVALID_TIME_BOUND {
        return Err(LockerError::Uncx(UncxLpError::InvalidTimeBoundError));
    }
    if unlock_date <= now {
        return Err(LockerError::Uncx(UncxLpError::InvalidUnlockDateError));
    }
    if lock_amount == 0 {
        return Err(LockerError::Uncx(UncxLpError::ZeroAmountError));
    }
    if !accs.is_country_allowed(country_code) {
        return Err(LockerError::Uncx(UncxLpError::BlackListedCountryError));
    }
    if referral.is_some() && accs.referral_token_account.is_none() {
        return Err(LockerError::Uncx(UncxLpError::MissingReferralAccount));
    }
    if method == FeePaymentMethod::Whitelisted && accs.user_whitelist_pda_acc.is_none() {
        return Err(LockerError::Uncx(UncxLpError::MissingWhitelistAccount));
    }
    Ok(())
}

fn push_action(actions: &mut Vec<TokenAction>, a: Option<TokenAction>)
    ensures
        final(actions)@ == old(actions)@ + opt_action(a),
{
    if let Some(x) = a {
        actions.push(x);
    }
    proof {
        assert(final(actions)@ =~= old(actions)@ + opt_action(a));
    }
}

fn fee_actions(
    accs: &CreateAndLockLp,
    s: &Settlement,
    referral: Option<Pubkey>,
    method: FeePaymentMethod,
) -> (r: Result<Vec<TokenAction>, LockerError>)
    ensures
        match spec_fee_actions(*accs, *s, referral, method) {
            Ok(seq) => r matches Ok(v) && v@ == seq,
            Err(e) => r == Err::<Vec<TokenAction>, LockerError>(e),
        },
{
    let missing = LockerError::Uncx(UncxLpError::MissingRequiredAccount);
    let mut actions: Vec<TokenAction> = Vec::new();
    match method {
        FeePaymentMethod::Whitelisted => {},
        FeePaymentMethod::Native => {
            if s.dev_fee > 0 {
                let dev_wallet = match accs.dev_wallet {
                    Some(w) => w,
                    None => return Err(missing),
                };
                push_action(&mut actions, system_program_transfer(s.dev_fee, accs.payer, dev_wallet));
            }
            if s.referral_share_fee > 0 {
                let referral_wallet = match accs.referral_wallet {
                    Some(w) => w,
                    None => return Err(missing),
                };
                let expected = match referral {
                    Some(k) => k,
                    None => return Err(LockerError::Uncx(UncxLpError::MathError)),
                };
                if !(expected == referral_wallet) {
                    return Err(missing);
                }
                push_action(&mut actions, system_program_transfer(s.referral_share_fee, accs.payer, referral_wallet));
            }
        },
        FeePaymentMethod::NonNative => {
            let (user_secondary, mint) = match (accs.user_secondary_token_account, accs.secondary_token_mint) {
                (Some(t), Some(m)) => (t, m),
                _ => return Err(missing),
            };
            let authority = match accs.user_secondary_token_authority_acc {
                Some(a) => a,
                None => accs.payer,
            };
            if s.referral_share_fee > 0 {
                let referral_account = match accs.referral_secondary_token_account {
                    Some(t) => t,
                    None => return Err(missing),
                };
                push_action(
                    &mut actions,
                    token_transfer(s.referral_share_fee, user_secondary.key, referral_account.key, authority),
                );
            }
            if s.secondary_token_burn_amount > 0 {
                push_action(
                    &mut actions,
                    Some(burn_token(s.secondary_token_burn_amount, user_secondary.key, mint, authority)),
                );
            }
        },
    }
    let lp_authority = match accs.user_lp_token_authority_acc {
        Some(a) => a,
        None => accs.payer,
    };
    if s.lp_fee_amount > 0 {
        let dev_lp = match accs.dev_lp_token_account {
            Some(t) => t,
            None => return Err(missing),
        };
        push_action(&mut actions, token_transfer(s.lp_fee_amount, accs.user_lp_token_acc.key, dev_lp.key, lp_authority));
    }
    push_action(
        &mut actions,
        token_transfer(s.lock_amount, accs.user_lp_token_acc.key, accs.uncx_lock_lp_vault_acc.key, lp_authority),
    );
    proof {
        let flat = spec_flat_fee_actions(*accs, *s, referral, method);
        assert(flat is Ok);
        let total = spec_fee_actions(*accs, *s, referral, method)->Ok_0;
        assert(actions@ =~= total);
    }
    Ok(actions)
}

/// The accounts a new lock reads but does not change.
pub open spec fn create_lock_untouched(o: CreateAndLockLp, f: CreateAndLockLp) -> bool {
    &&& f.payer == o.payer
    &&& f.uncx_lock_lp_vault_acc == o.uncx_lock_lp_vault_acc
    &&& f.uncx_authority_acc == o.uncx_authority_acc
    &&& f.lp_mint_acc == o.lp_mint_acc
    &&& f.user_lp_token_acc == o.user_lp_token_acc
    &&& f.user_lp_token_authority_acc == o.user_lp_token_authority_acc
    &&& f.referral_wallet == o.referral_wallet
    &&& f.referral_token_account == o.referral_token_account
    &&& f.user_secondary_token_account == o.user_secondary_token_account
    &&& f.referral_secondary_token_account == o.referral_secondary_token_account
    &&& f.user_secondary_token_authority_acc == o.user_secondary_token_authority_acc
    &&& f.secondary_token_mint == o.secondary_token_mint
    &&& f.dev_lp_token_account == o.dev_lp_token_account
    &&& f.dev_wallet == o.dev_wallet
    &&& f.user_whitelist_pda_acc == o.user_whitelist_pda_acc
    &&& f.whitelist_address == o.whitelist_address
    &&& f.coin_metadata_account == o.coin_metadata_account
    &&& f.pc_metadata_account == o.pc_metadata_account
    &&& f.amm_info_acc == o.amm_info_acc
    &&& f.amm_target_orders_info_acc == o.amm_target_orders_info_acc
    &&& f.pc_vault_token_acc == o.pc_vault_token_acc
    &&& f.coin_vault_token_acc == o.coin_vault_token_acc
}

/// What `handle_create_and_lock_lp` does: the accounts before (`o`) and after (`f`), and its result.
pub open spec fn create_and_lock_lp_effect(
    o: CreateAndLockLp,
    f: CreateAndLockLp,
    r: Result<NewLockOutcome, LockerError>,
    bumps: CreateAndLockLpBumps,
    now: i64,
    lock_owner: Pubkey,
    lock_amount: u64,
    unlock_date: i64,
    country_code: u8,
    referral: Option<Pubkey>,
    fee_payment_method: FeePaymentMethod,
) -> bool {
    &&& create_lock_untouched(o, f)
    &&& match spec_create_lock_error(o, now, lock_amount, unlock_date, country_code, referral, fee_payment_method) {
        Some(e) => {
            &&& r matches Err(x) && x == e
            &&& f.lp_locker_acc == o.lp_locker_acc
            &&& f.config_account == o.config_account
            &&& f.user_info_acc == o.user_info_acc
            &&& f.user_info_lp_tracker_acc.associated_locker_ids@ == o.user_info_lp_tracker_acc.associated_locker_ids@
            &&& f.user_info_lp_tracker_acc.bump == o.user_info_lp_tracker_acc.bump
            &&& f.global_lp_marker_acc == o.global_lp_marker_acc
        },
        None => r matches Ok(out) && {
            let s = spec_lock_settlement(o, lock_amount, referral, fee_payment_method);
            let info = spec_amm_info(o.amm_info_acc.data@);
            let reserves = spec_checked_reserves(o, info)->Ok_0;
            let coin = spec_metadata_from_bytes(o.coin_metadata_account.data@)->0;
            let pc = spec_metadata_from_bytes(o.pc_metadata_account.data@)->0;
            let next_id = o.config_account.config.next_locker_unique_id;
            let amm_key = o.amm_info_acc.key;
            &&& out.settlement == s
            &&& out.actions@ == spec_fee_actions(o, s, referral, fee_payment_method)->Ok_0
            &&& out.event.lock_id == next_id
            &&& out.event.amm_id == amm_key
            &&& out.event.owner == lock_owner
            &&& out.event.amount == s.lock_amount
            &&& out.event.lock_date == now
            &&& out.event.unlock_date == unlock_date
            &&& out.event.country_code == country_code
            &&& out.event.coin_token_name@ == coin.1
            &&& out.event.coin_token_symbol@ == coin.2
            &&& out.event.coin_token_decimals == info.coin_decimals as u8
            &&& out.event.coin_mint == info.coin_vault_mint
            &&& out.event.pc_token_name@ == pc.1
            &&& out.event.pc_token_symbol@ == pc.2
            &&& out.event.pc_token_decimals == info.pc_decimals as u8
            &&& out.event.pc_mint == info.pc_vault_mint
            &&& out.event.amm_real_liquidity == reserves.0
            &&& out.event.amm_real_pc_reserve == reserves.1
            &&& out.event.amm_real_coin_reserve == reserves.2
            &&& f.lp_locker_acc == (TokenLock {
                bump: bumps.lp_locker_acc,
                amm_id: amm_key,
                lp_mint: o.lp_mint_acc,
                lock_global_id: next_id,
                lock_date: now,
                unlock_date,
                country_code,
                initial_lock_amount: s.lock_amount,
                current_locked_amount: s.lock_amount,
                lock_owner,
            })
            &&& f.user_info_acc == (UserInfoAccount {
                bump: bumps.user_info_acc,
                user: lock_owner,
                lp_mint: amm_key,
                lp_locker_count: (o.user_info_acc.lp_locker_count + 1) as u64,
            })
            &&& f.user_info_lp_tracker_acc.bump == bumps.user_info_lp_tracker_acc
            &&& f.user_info_lp_tracker_acc.associated_locker_ids@
                == o.user_info_lp_tracker_acc.associated_locker_ids@.push(next_id)
            &&& f.config_account.config == (Config {
                next_locker_unique_id: (next_id + 1) as u64,
                ..o.config_account.config
            })
            &&& f.config_account.bump == o.config_account.bump
            &&& f.config_account.uncx_authority_pda_address == o.config_account.uncx_authority_pda_address
            &&& f.config_account.uncx_authority_bump == o.config_account.uncx_authority_bump
            &&& f.config_account.blacklisted_countries@ == o.config_account.blacklisted_countries@
            &&& f.global_lp_marker_acc == (GlobalLpMintMarker { bump: bumps.global_lp_marker_acc })
        },
        }
}

/// Whether a lock with these inputs reads the pool's reserves only when that reading stays in
/// range: `false` exactly when the lock gets as far as the reserves and their arithmetic would
/// overflow, divide by zero or meet target orders of the wrong size.
pub fn reserve_reading_in_range(
    accs: &CreateAndLockLp,
    now: i64,
    lock_amount: u64,
    unlock_date: i64,
    country_code: u8,
    referral: Option<Pubkey>,
    fee_payment_method: FeePaymentMethod,
) -> (r: bool)
    requires
        accs.config_account.wf(),
        accs.amm_info_acc.data@.len() == AMM_INFO_SIZE,
    ensures
        r == (reaches_reserves(*accs, now, lock_amount, unlock_date, country_code, referral, fee_payment_method)
            ==> reserves_readable(*accs, spec_amm_info(accs.amm_info_acc.data@))),
{
    if check_lock_inputs(accs, now, lock_amount, unlock_date, country_code, referral, fee_payment_method).is_err() {
        return true;
    }
    let fee_config = accs.config_account.config.fee_config;
    proof {
        lemma_settlement_total_for_valid_config(fee_config, lock_amount, referral is Some, fee_payment_method);
    }
    let settlement = match calc_settlement(&fee_config, lock_amount, referral.is_some(), fee_payment_method) {
        Ok(s) => s,
        Err(_) => return true,
    };
    if fee_actions(accs, &settlement, referral, fee_payment_method).is_err() {
        return true;
    }
    let amm_info = AmmInfo::load(accs.amm_info_acc.data.as_slice());
    accs.reserves_are_readable(&amm_info)
}

/// Creates a lock of `lock_amount` liquidity tokens for `lock_owner`, until `unlock_date`.
/// Refuses an unlock date at or past the time bound or not in the future, a zero amount, a
/// blacklisted country, a referral without its token account, a whitelisted payment without
/// the whitelist marker. Settles the fees; moves the flat fees (native transfer, or referral
/// share and burn of the secondary token), the liquidity fee to the dev wallet and the rest
/// into the vault; reads the pool's true reserves and its tokens' metadata for the event; then
/// records the lock under the next lock id, counts and tracks it for its owner, and marks the
/// pool.
pub fn handle_create_and_lock_lp(
    accs: &mut CreateAndLockLp,
    bumps: CreateAndLockLpBumps,
    now: i64,
    lock_owner: Pubkey,
    lock_amount: u64,
    unlock_date: i64,
    country_code: u8,
    referral: Option<Pubkey>,
    fee_payment_method: FeePaymentMethod,
) -> (r: Result<NewLockOutcome, LockerError>)
    requires
        old(accs).config_account.wf(),
        old(accs).amm_info_acc.data@.len() == AMM_INFO_SIZE,
        reaches_reserves(*old(accs), now, lock_amount, unlock_date, country_code, referral, fee_payment_method)
            ==> reserves_readable(*old(accs), spec_amm_info(old(accs).amm_info_acc.data@)),
        spec_create_lock_error(*old(accs), now, lock_amount, unlock_date, country_code, referral, fee_payment_method) is None
            ==> old(accs).user_info_acc.lp_locker_count < u64::MAX && old(accs).config_account.config.next_locker_unique_id
            < u64::MAX,
    ensures
        create_and_lock_lp_effect(*old(accs), *final(accs), r, bumps, now, lock_owner, lock_amount, unlock_date, country_code, referral, fee_payment_method),
{
    check_lock_inputs(accs, now, lock_amount, unlock_date, country_code, referral, fee_payment_method)?;
    let fee_config = accs.config_account.config.fee_config;
    proof {
        lemma_settlement_total_for_valid_config(fee_config, lock_amount, referral is Some, fee_payment_method);
        assert(settlement_defined(fee_config, referral is Some, fee_payment_method));
    }
    let settlement = calc_settlement(&fee_config, lock_amount, referral.is_some(), fee_payment_method)?;
    let actions = fee_actions(accs, &settlement, referral, fee_payment_method)?;
    let amm_info = AmmInfo::load(accs.amm_info_acc.data.as_slice());
    let (amm_liquidity, true_pc_vault_reserve, true_coin_vault_reserve) = accs.checked_calc_raydium_reserves(&amm_info)?;
    let (coin_metadata, pc_metadata) = accs.validate_metadata()?;
    let next_id = accs.config_account.config.next_locker_unique_id;
    let amm_key = accs.amm_info_acc.key;
    let locker = TokenLock {
        amm_id: amm_key,
        lp_mint: accs.lp_mint_acc,
        lock_global_id: next_id,
        lock_date: now,
        initial_lock_amount: settlement.lock_amount,
        current_locked_amount: settlement.lock_amount,
        country_code,
        unlock_date,
        lock_owner,
        bump: bumps.lp_locker_acc,
    };
    let event = OnNewLock {
        lock_id: next_id,
        amm_id: amm_key,
        owner: lock_owner,
        amount: settlement.lock_amount,
        lock_date: now,
        unlock_date,
        country_code,
        coin_token_name: coin_metadata.name,
        coin_token_symbol: coin_metadata.symbol,
        coin_token_decimals: amm_info.coin_decimals as u8,
        pc_token_name: pc_metadata.name,
        pc_token_symbol: pc_metadata.symbol,
        pc_token_decimals: amm_info.pc_decimals as u8,
        amm_real_liquidity: amm_liquidity,
        amm_real_pc_reserve: true_pc_vault_reserve,
        amm_real_coin_reserve: true_coin_vault_reserve,
        pc_mint: amm_info.pc_vault_mint,
        coin_mint: amm_info.coin_vault_mint,
    };
    accs.user_info_acc = UserInfoAccount {
        bump: bumps.user_info_acc,
        lp_mint: amm_key,
        lp_locker_count: accs.user_info_acc.lp_locker_count + 1,
        user: lock_owner,
    };
    accs.user_info_lp_tracker_acc.bump = bumps.user_info_lp_tracker_acc;
    accs.user_info_lp_tracker_acc.associated_locker_ids.push(next_id);
    accs.lp_locker_acc = locker;
    accs.config_account.config.next_locker_unique_id = next_id + 1;
    accs.global_lp_marker_acc = GlobalLpMintMarker { bump: bumps.global_lp_marker_acc };
    Ok(NewLockOutcome { settlement, actions, event })
}

} // verus!
