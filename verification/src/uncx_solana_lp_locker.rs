//! The program's instructions: each checks its accounts' constraints, then runs its handler.
use vstd::prelude::*;
use crate::accounts_ix::add_migrator_ix::AddMigrator;
use crate::accounts_ix::add_whitelist_ix::AddWhitelistAcc;
use crate::accounts_ix::admin_ix::AdminIx;
use crate::accounts_ix::increment_lock_lp::IncrementLockLp;
use crate::accounts_ix::initialize_ix::{InitializeConfig, InitializeConfigBumps};
use crate::accounts_ix::lock_lp::{reserves_readable, spec_validate_head, CreateAndLockLp, CreateAndLockLpBumps};
use crate::accounts_ix::migrate::MigrateLp;
use crate::accounts_ix::relock::RelockLp;
use crate::accounts_ix::remove_migrator_ix::RemoveMigrator;
use crate::accounts_ix::remove_whitelist_ix::RemoveWhitelistAcc;
use crate::accounts_ix::split_lock::{SplitLock, SplitLockBumps};
use crate::accounts_ix::transfer_lock_ownership::{TransferLockOwnership, TransferLockOwnershipBumps};
use crate::accounts_ix::withdraw_lp::WithdrawLp;
use crate::accounts_ix::spec_raw;
use crate::constants::spec_initial_admin;
use crate::error::{FrameworkError, LockerError};
use crate::fees::FeePaymentMethod;
use crate::instructions::admin_ix::add_migrator::{add_migrator_effect, handle_add_migrator};
use crate::instructions::admin_ix::add_whitelist::{add_whitelist_effect, handle_add_whitelist};
use crate::instructions::admin_ix::blacklist_management::{
    add_country_to_blacklist_effect, handle_add_country_to_blacklist, handle_remove_country_from_blacklist,
    remove_country_from_blacklist_effect,
};
use crate::instructions::admin_ix::change_owner::{change_owner_effect, handle_change_owner};
use crate::instructions::admin_ix::set_dev::{handle_set_dev, set_dev_effect};
use crate::instructions::admin_ix::set_fees::{handle_set_fees, set_fees_effect};
use crate::instructions::admin_ix::set_referral_token_hold::{
    handle_set_referral_token_and_min_balance, set_referral_token_and_min_balance_effect,
};
use crate::instructions::admin_ix::set_secondary_token::{handle_set_secondary_token, set_secondary_token_effect};
use crate::instructions::increment_lock_lp::{
    handle_increment_lock_lp, increment_lock_lp_effect, spec_increment_fee, IncrementOutcome,
};
use crate::instructions::initialize::{handle_initialize_config, initialize_config_effect};
use crate::instructions::lock_lp::{
    create_and_lock_lp_effect, handle_create_and_lock_lp, reaches_reserves, spec_create_lock_error, NewLockOutcome,
};
use crate::instructions::migrate::{handle_migrate_lp, migrate_lp_effect, MigrateOutcome};
use crate::instructions::relock::{handle_relock_lp, relock_lp_effect, RelockOutcome};
use crate::instructions::split_lock::{handle_split_lock, split_lock_effect, SplitOutcome};
use crate::instructions::transfer_lock_ownership::{
    handle_transfer_lock_ownership, transfer_lock_ownership_effect, TransferOwnershipOutcome,
};
use crate::instructions::withdraw_lp::{handle_withdraw_lp, release_defined, withdraw_lp_effect, WithdrawOutcome};
use crate::pubkey::Pubkey;
use crate::raydium_port::state::spec_amm_info;
use crate::state::configuration::{Config, FeesConfig};

verus! {

/// Creates the configuration. Only the initial admin may.
pub fn initialize(
    accs: &mut InitializeConfig,
    bumps: InitializeConfigBumps,
    initial_config: Config,
    initial_black_listed_countries: Option<[u8; 10]>,
) -> (r: Result<(), LockerError>)
    ensures
        old(accs).initial_admin != spec_initial_admin() ==> r == Err::<(), LockerError>(
            LockerError::Framework(FrameworkError::ConstraintAddress),
        ) && *final(accs) == *old(accs),
        old(accs).initial_admin == spec_initial_admin() ==> initialize_config_effect(
            *old(accs),
            *final(accs),
            r,
            bumps,
            initial_config,
            initial_black_listed_countries,
        ),
{
    accs.validate()?;
    handle_initialize_config(accs, bumps, initial_config, initial_black_listed_countries)
}

/// Whitelists `whitelist_address` (the address the marker is derived from). Only the admin may.
pub fn add_whitelist(accs: &mut AddWhitelistAcc, user_whitelist_bump: u8, whitelist_address: Pubkey) -> (r: Result<(), LockerError>)
    ensures
        old(accs).admin_sign != old(accs).config_account.config.admin_key ==> r == Err::<(), LockerError>(spec_raw())
            && *final(accs) == *old(accs),
        old(accs).admin_sign == old(accs).config_account.config.admin_key ==> r == Ok::<(), LockerError>(())
            && add_whitelist_effect(*old(accs), *final(accs), user_whitelist_bump),
{
    accs.validate()?;
    handle_add_whitelist(accs, user_whitelist_bump);
    Ok(())
}

/// Removes `whitelist_address` from the whitelist: its marker is closed. Only the admin may.
pub fn remove_whitelist(accs: &RemoveWhitelistAcc, whitelist_address: Pubkey) -> (r: Result<(), LockerError>)
    ensures
        r is Ok <==> accs.admin_sign == accs.config_account.config.admin_key,
        r is Err ==> r == Err::<(), LockerError>(spec_raw()),
{
    accs.validate()
}

/// Allows `new_migrator_address_pda` (the address the marker is derived from) to migrate locks.
/// Only the admin may.
pub fn add_migrator(accs: &mut AddMigrator, migrator_marker_bump: u8, new_migrator_address_pda: Pubkey) -> (r: Result<
    (),
    LockerError,
>)
    ensures
        old(accs).admin_sign != old(accs).config_account.config.admin_key ==> r == Err::<(), LockerError>(spec_raw())
            && *final(accs) == *old(accs),
        old(accs).admin_sign == old(accs).config_account.config.admin_key ==> r == Ok::<(), LockerError>(())
            && add_migrator_effect(*old(accs), *final(accs), migrator_marker_bump),
{
    accs.validate()?;
    handle_add_migrator(accs, migrator_marker_bump);
    Ok(())
}

/// Revokes a migrator: its marker is closed. Only the admin may.
pub fn remove_migrator(accs: &RemoveMigrator, migrator_pda_acc: Pubkey) -> (r: Result<(), LockerError>)
    ensures
        r is Ok <==> accs.admin_sign == accs.config_account.config.admin_key,
        r is Err ==> r == Err::<(), LockerError>(spec_raw()),
{
    accs.validate()
}

/// Creates a lock (see `handle_create_and_lock_lp`) once the accounts pass their constraints.
/// `amm_info_acc_key` is the pool the owner's tracking accounts are derived from.
pub fn create_and_lock_lp(
    accs: &mut CreateAndLockLp,
    bumps: CreateAndLockLpBumps,
    now: i64,
    lock_owner: Pubkey,
    amm_info_acc_key: Pubkey,
    referral_wallet_key: Option<Pubkey>,
    lock_amount: u64,
    unlock_date: i64,
    country_code: u8,
    fee_payment_method: FeePaymentMethod,
) -> (r: Result<NewLockOutcome, LockerError>)
    requires
        old(accs).config_account.wf(),
        spec_validate_head(*old(accs)) is Ok && old(accs).secondary_token_mint is Some
            ==> old(accs).config_account.config.secondary_token_address is Some,
        old(accs).spec_validate() is Ok && reaches_reserves(
            *old(accs),
            now,
            lock_amount,
            unlock_date,
            country_code,
            referral_wallet_key,
            fee_payment_method,
        ) ==> reserves_readable(*old(accs), spec_amm_info(old(accs).amm_info_acc.data@)),
        old(accs).spec_validate() is Ok && spec_create_lock_error(
            *old(accs),
            now,
            lock_amount,
            unlock_date,
            country_code,
            referral_wallet_key,
            fee_payment_method,
        ) is None ==> old(accs).user_info_acc.lp_locker_count < u64::MAX
            && old(accs).config_account.config.next_locker_unique_id < u64::MAX,
    ensures
        old(accs).spec_validate() matches Err(e) ==> r == Err::<NewLockOutcome, LockerError>(e)
            && *final(accs) == *old(accs),
        old(accs).spec_validate() is Ok ==> create_and_lock_lp_effect(
            *old(accs),
            *final(accs),
            r,
            bumps,
            now,
            lock_owner,
            lock_amount,
            unlock_date,
            country_code,
            referral_wallet_key,
            fee_payment_method,
        ),
{
    accs.validate()?;
    handle_create_and_lock_lp(
        accs,
        bumps,
        now,
        lock_owner,
        lock_amount,
        unlock_date,
        country_code,
        referral_wallet_key,
        fee_payment_method,
    )
}

/// Extends a lock (see `handle_relock_lp`) once the accounts pass their constraints.
pub fn relock_lp(accs: &mut RelockLp, now: i64, lock_id: u64, new_unlock_date: i64) -> (r: Result<RelockOutcome, LockerError>)
    requires
        old(accs).config_account.wf(),
    ensures
        old(accs).spec_validate(lock_id) matches Err(e) ==> r == Err::<RelockOutcome, LockerError>(e)
            && *final(accs) == *old(accs),
        old(accs).spec_validate(lock_id) is Ok ==> relock_lp_effect(*old(accs), *final(accs), r, now, lock_id, new_unlock_date),
{
    accs.validate(lock_id)?;
    handle_relock_lp(accs, now, lock_id, new_unlock_date)
}

/// Splits part of a lock into a new lock (see `handle_split_lock`) once the accounts pass their
/// constraints.
pub fn split_relock_lp(
    accs: &mut SplitLock,
    bumps: SplitLockBumps,
    old_locker_id: u64,
    new_locker_locked_amount: u64,
) -> (r: Result<SplitOutcome, LockerError>)
    requires
        old(accs).spec_validate(old_locker_id, new_locker_locked_amount) is Ok ==> {
            &&& old(accs).lp_locker_acc.current_locked_amount > new_locker_locked_amount
                ==> old(accs).user_info_acc.lp_locker_count < u64::MAX
            &&& old(accs).config_account.config.next_locker_unique_id < u64::MAX
        },
    ensures
        old(accs).spec_validate(old_locker_id, new_locker_locked_amount) matches Err(e) ==> r == Err::<
            SplitOutcome,
            LockerError,
        >(e) && *final(accs) == *old(accs),
        old(accs).spec_validate(old_locker_id, new_locker_locked_amount) is Ok ==> split_lock_effect(
            *old(accs),
            *final(accs),
            r,
            bumps,
            old_locker_id,
            new_locker_locked_amount,
        ),
{
    accs.validate(old_locker_id, new_locker_locked_amount)?;
    handle_split_lock(accs, bumps, old_locker_id, new_locker_locked_amount)
}

/// Hands a lock to a new owner (see `handle_transfer_lock_ownership`) once the accounts pass
/// their constraints.
pub fn transfer_lock_ownership(
    accs: &mut TransferLockOwnership,
    bumps: TransferLockOwnershipBumps,
    locker_id: u64,
    new_owner: Pubkey,
) -> (r: Result<TransferOwnershipOutcome, LockerError>)
    requires
        old(accs).spec_validate(locker_id, new_owner) is Ok ==> {
            &&& old(accs).old_user_info_lp_tracker_acc.associated_locker_ids@.contains(locker_id)
                ==> old(accs).old_user_info_acc.lp_locker_count > 0
            &&& old(accs).new_user_info_acc.lp_locker_count < u64::MAX
        },
    ensures
        old(accs).spec_validate(locker_id, new_owner) matches Err(e) ==> r == Err::<TransferOwnershipOutcome, LockerError>(e)
            && *final(accs) == *old(accs),
        old(accs).spec_validate(locker_id, new_owner) is Ok ==> transfer_lock_ownership_effect(
            *old(accs),
            *final(accs),
            r,
            bumps,
            locker_id,
            new_owner,
        ),
{
    accs.validate(locker_id, new_owner)?;
    handle_transfer_lock_ownership(accs, bumps, locker_id, new_owner)
}

/// Withdraws from an expired lock (see `handle_withdraw_lp`) once the accounts pass their
/// constraints, at time `now`.
pub fn withdraw_lp(accs: &mut WithdrawLp, now: i64, locker_id: u64, withdraw_amount: u64) -> (r: Result<
    WithdrawOutcome,
    LockerError,
>)
    requires
        old(accs).spec_validate(locker_id, withdraw_amount, now) is Ok ==> release_defined(
            old(accs).lp_locker_acc.current_locked_amount == withdraw_amount,
            locker_id,
            old(accs).user_info_lp_tracker_acc,
            old(accs).user_info_acc,
        ),
    ensures
        old(accs).spec_validate(locker_id, withdraw_amount, now) matches Err(e) ==> r == Err::<WithdrawOutcome, LockerError>(e)
            && *final(accs) == *old(accs),
        old(accs).spec_validate(locker_id, withdraw_amount, now) is Ok ==> withdraw_lp_effect(
            *old(accs),
            *final(accs),
            r,
            locker_id,
            withdraw_amount,
        ),
{
    accs.validate(locker_id, withdraw_amount, now)?;
    handle_withdraw_lp(accs, locker_id, withdraw_amount)
}

/// Hands a lock's tokens to a migrator (see `handle_migrate_lp`) once the accounts pass their
/// constraints.
pub fn migrate_lp(accs: &mut MigrateLp, locker_id: u64, migrate_amount: u64, migration_option: u16) -> (r: Result<
    MigrateOutcome,
    LockerError,
>)
    requires
        old(accs).spec_validate(locker_id, migrate_amount) is Ok ==> release_defined(
            old(accs).lp_locker_acc.current_locked_amount == migrate_amount,
            locker_id,
            old(accs).user_info_lp_tracker_acc,
            old(accs).user_info_acc,
        ),
    ensures
        old(accs).spec_validate(locker_id, migrate_amount) matches Err(e) ==> r == Err::<MigrateOutcome, LockerError>(e)
            && *final(accs) == *old(accs),
        old(accs).spec_validate(locker_id, migrate_amount) is Ok ==> migrate_lp_effect(
            *old(accs),
            *final(accs),
            r,
            locker_id,
            migrate_amount,
            migration_option,
        ),
{
    accs.validate(locker_id, migrate_amount)?;
    handle_migrate_lp(accs, locker_id, migrate_amount, migration_option)
}

/// Adds tokens to a lock (see `handle_increment_lock_lp`) once the accounts pass their
/// constraints.
pub fn increment_lock_lp(accs: &mut IncrementLockLp, locker_id: u64, increase_lp_amount_by: u64) -> (r: Result<
    IncrementOutcome,
    LockerError,
>)
    requires
        old(accs).config_account.wf(),
        old(accs).spec_validate(locker_id, increase_lp_amount_by) is Ok ==> old(accs).lp_locker_acc.current_locked_amount
            + increase_lp_amount_by - spec_increment_fee(*old(accs), increase_lp_amount_by) <= u64::MAX,
    ensures
        old(accs).spec_validate(locker_id, increase_lp_amount_by) matches Err(e) ==> r == Err::<IncrementOutcome, LockerError>(e)
            && *final(accs) == *old(accs),
        old(accs).spec_validate(locker_id, increase_lp_amount_by) is Ok ==> increment_lock_lp_effect(
            *old(accs),
            *final(accs),
            r,
            locker_id,
            increase_lp_amount_by,
        ),
{
    accs.validate(locker_id, increase_lp_amount_by)?;
    handle_increment_lock_lp(accs, locker_id, increase_lp_amount_by)
}

/// The admin's signature is missing: refused, nothing changes.
pub open spec fn refused_non_admin(o: AdminIx, f: AdminIx, r: Result<(), LockerError>) -> bool {
    o.admin_sign != o.config_account.config.admin_key ==> r == Err::<(), LockerError>(spec_raw()) && f == o
}

/// The admin signs.
pub open spec fn signed_by_admin(o: AdminIx) -> bool {
    o.admin_sign == o.config_account.config.admin_key
}

/// Changes the wallet fees go to. Only the admin may.
pub fn set_dev(accs: &mut AdminIx, new_dev_addr: Pubkey) -> (r: Result<(), LockerError>)
    ensures
        refused_non_admin(*old(accs), *final(accs), r),
        signed_by_admin(*old(accs)) ==> set_dev_effect(*old(accs), *final(accs), r, new_dev_addr),
{
    accs.validate()?;
    handle_set_dev(accs, new_dev_addr)
}

/// Hands the admin role to a new key. Only the admin may.
pub fn set_new_admin(accs: &mut AdminIx, new_admin_addr: Pubkey) -> (r: Result<(), LockerError>)
    ensures
        refused_non_admin(*old(accs), *final(accs), r),
        signed_by_admin(*old(accs)) ==> change_owner_effect(*old(accs), *final(accs), r, new_admin_addr),
{
    accs.validate()?;
    handle_change_owner(accs, new_admin_addr)
}

/// Replaces the fee settings. Only the admin may.
pub fn set_new_fees_config(accs: &mut AdminIx, new_fees_config: FeesConfig) -> (r: Result<(), LockerError>)
    ensures
        refused_non_admin(*old(accs), *final(accs), r),
        signed_by_admin(*old(accs)) ==> set_fees_effect(*old(accs), *final(accs), r, new_fees_config),
{
    accs.validate()?;
    handle_set_fees(accs, new_fees_config)
}

/// Sets the referral token and the balance a referrer must hold. Only the admin may.
pub fn set_referral_token_hold_balance(
    accs: &mut AdminIx,
    new_referral_token_hold_balance: u64,
    new_referral_token: Option<Pubkey>,
) -> (r: Result<(), LockerError>)
    ensures
        refused_non_admin(*old(accs), *final(accs), r),
        signed_by_admin(*old(accs)) ==> set_referral_token_and_min_balance_effect(
            *old(accs),
            *final(accs),
            r,
            new_referral_token,
            new_referral_token_hold_balance,
        ),
{
    accs.validate()?;
    handle_set_referral_token_and_min_balance(accs, new_referral_token, new_referral_token_hold_balance)
}

/// Sets the secondary token. Only the admin may.
pub fn set_secondary_token(accs: &mut AdminIx, new_secondary_token: Option<Pubkey>) -> (r: Result<(), LockerError>)
    ensures
        refused_non_admin(*old(accs), *final(accs), r),
        signed_by_admin(*old(accs)) ==> set_secondary_token_effect(*old(accs), *final(accs), r, new_secondary_token),
{
    accs.validate()?;
    handle_set_secondary_token(accs, new_secondary_token)
}

/// Blacklists a country. Only the admin may.
pub fn add_country_to_blacklist(accs: &mut AdminIx, country_code_to_add: u8) -> (r: Result<(), LockerError>)
    ensures
        refused_non_admin(*old(accs), *final(accs), r),
        signed_by_admin(*old(accs)) ==> add_country_to_blacklist_effect(*old(accs), *final(accs), r, country_code_to_add),
{
    accs.validate()?;
    handle_add_country_to_blacklist(accs, country_code_to_add)
}

/// Takes a country off the blacklist. Only the admin may.
pub fn remove_country_from_blacklist(accs: &mut AdminIx, country_code_to_remove: u8) -> (r: Result<(), LockerError>)
    ensures
        refused_non_admin(*old(accs), *final(accs), r),
        signed_by_admin(*old(accs)) ==> remove_country_from_blacklist_effect(
            *old(accs),
            *final(accs),
            r,
            country_code_to_remove,
        ),
{
    accs.validate()?;
    handle_remove_country_from_blacklist(accs, country_code_to_remove)
}

} // verus!
