use uncx_lp_locker::accounts_ix::increment_lock_lp::IncrementLockLp;
use uncx_lp_locker::accounts_ix::migrate::MigrateLp;
use uncx_lp_locker::accounts_ix::relock::RelockLp;
use uncx_lp_locker::accounts_ix::split_lock::{SplitLock, SplitLockBumps};
use uncx_lp_locker::accounts_ix::transfer_lock_ownership::{TransferLockOwnership, TransferLockOwnershipBumps};
use uncx_lp_locker::accounts_ix::withdraw_lp::WithdrawLp;
use uncx_lp_locker::accounts_ix::TokenAccountData;
use uncx_lp_locker::error::{FrameworkError, LockerError, UncxLpError};
use uncx_lp_locker::pubkey::Pubkey;
use uncx_lp_locker::state::configuration::{Config, ConfigurationAccount, FeesConfig, Migrator};
use uncx_lp_locker::state::events::{OnIncrementLock, OnMigrate, OnRelock, OnSplitLock, OnTransferLockOwnership, OnWithdraw};
use uncx_lp_locker::state::token_lock::TokenLock;
use uncx_lp_locker::state::user_info::{UserInfoAccount, UserLpInfoAccount};
use uncx_lp_locker::uncx_solana_lp_locker::{
    increment_lock_lp, migrate_lp, relock_lp, split_relock_lp, transfer_lock_ownership, withdraw_lp,
};
use uncx_lp_locker::utils::{clean_locker_from_tracker_and_close, TokenAction, TrackerCleanup};

fn key(n: u8) -> Pubkey {
    Pubkey::new_from_array([n; 32])
}

fn config_account() -> ConfigurationAccount {
    ConfigurationAccount {
        config: Config {
            fee_config: FeesConfig {
                native_fee: 100,
                secondary_token_fee: 50,
                secondary_token_discount_bps: 2000,
                liquidity_fee_bps: 100,
                referral_share_bps: 1000,
                referral_discount_bps: 1000,
            },
            min_referral_balance: 10,
            referral_token_address: None,
            secondary_token_address: None,
            admin_key: key(1),
            dev_addr: key(2),
            next_locker_unique_id: 42,
        },
        bump: 255,
        uncx_authority_pda_address: key(3),
        uncx_authority_bump: 254,
        blacklisted_countries: vec![],
    }
}

fn lock(amount: u64) -> TokenLock {
    TokenLock {
        bump: 200,
        amm_id: key(10),
        lp_mint: key(11),
        lock_global_id: 7,
        lock_date: 1_000,
        unlock_date: 2_000,
        country_code: 33,
        initial_lock_amount: 10_000,
        current_locked_amount: amount,
        lock_owner: key(12),
    }
}

fn token_account(k: u8, owner: u8, amount: u64) -> TokenAccountData {
    TokenAccountData { key: key(k), mint: key(11), owner: key(owner), amount }
}

fn user_info(count: u64) -> UserInfoAccount {
    UserInfoAccount { bump: 199, user: key(12), lp_mint: key(10), lp_locker_count: count }
}

fn tracker(ids: Vec<u64>) -> UserLpInfoAccount {
    UserLpInfoAccount { bump: 198, associated_locker_ids: ids }
}

fn relock_accs() -> RelockLp {
    RelockLp {
        lp_locker_acc: lock(10_000),
        lock_owner: key(12),
        uncx_authority_acc: key(3),
        uncx_lock_lp_vault_acc: token_account(13, 3, 10_000),
        dev_lp_token_account: token_account(14, 2, 0),
        config_account: config_account(),
    }
}

#[test]
fn relock_extends_and_charges_fee() {
    let mut accs = relock_accs();
    let out = relock_lp(&mut accs, 1_500, 7, 3_000).unwrap();
    assert_eq!(accs.lp_locker_acc.unlock_date, 3_000);
    assert_eq!(accs.lp_locker_acc.current_locked_amount, 9_900);
    assert_eq!(
        out.liquidity_fee_transfer,
        TokenAction::SignedTokenTransfer { from: key(13), to: key(14), authority: key(3), authority_bump: 254, amount: 100 }
    );
    assert_eq!(
        out.event,
        OnRelock { lock_id: 7, lp_token: key(10), owner: key(12), amount_remaining_in_lock: 9_900, liquidity_fee: 100, unlock_date: 3_000 }
    );
}

#[test]
fn relock_refusals() {
    let mut accs = relock_accs();
    assert_eq!(relock_lp(&mut accs, 1_500, 8, 3_000).unwrap_err(), LockerError::Framework(FrameworkError::ConstraintRaw));
    accs.lock_owner = key(99);
    assert_eq!(relock_lp(&mut accs, 1_500, 7, 3_000).unwrap_err(), LockerError::Uncx(UncxLpError::OwnerMismatchError));
    let mut accs = relock_accs();
    assert_eq!(
        relock_lp(&mut accs, 1_500, 7, 10_000_000_000).unwrap_err(),
        LockerError::Uncx(UncxLpError::InvalidTimeBoundError)
    );
    assert_eq!(relock_lp(&mut accs, 1_500, 7, 2_000).unwrap_err(), LockerError::Uncx(UncxLpError::RelockUnlockDateInvalid));
    assert_eq!(relock_lp(&mut accs, 2_500, 7, 2_400).unwrap_err(), LockerError::Uncx(UncxLpError::InvalidUnlockDateError));
    assert_eq!(accs, relock_accs());
}

fn split_accs(amount: u64, count: u64, ids: Vec<u64>) -> SplitLock {
    SplitLock {
        payer: key(15),
        lp_locker_acc: lock(amount),
        new_lp_locker_acc: TokenLock {
            bump: 0,
            amm_id: key(0),
            lp_mint: key(0),
            lock_global_id: 0,
            lock_date: 0,
            unlock_date: 0,
            country_code: 0,
            initial_lock_amount: 0,
            current_locked_amount: 0,
            lock_owner: key(0),
        },
        lock_owner: key(12),
        dev_wallet: key(2),
        config_account: config_account(),
        user_info_acc: user_info(count),
        user_info_lp_tracker_acc: tracker(ids),
    }
}

#[test]
fn split_part_of_a_lock() {
    let mut accs = split_accs(1_000, 1, vec![7]);
    let bumps = SplitLockBumps { new_lp_locker_acc: 190, user_info_lp_tracker_acc: 191 };
    let out = split_relock_lp(&mut accs, bumps, 7, 300).unwrap();
    assert_eq!(accs.lp_locker_acc.current_locked_amount, 700);
    assert_eq!(accs.new_lp_locker_acc.current_locked_amount, 300);
    assert_eq!(accs.new_lp_locker_acc.initial_lock_amount, 300);
    assert_eq!(accs.new_lp_locker_acc.lock_global_id, 42);
    assert_eq!(accs.new_lp_locker_acc.bump, 190);
    assert_eq!(accs.new_lp_locker_acc.unlock_date, 2_000);
    assert_eq!(accs.new_lp_locker_acc.lock_owner, key(12));
    assert_eq!(accs.config_account.config.next_locker_unique_id, 43);
    assert_eq!(accs.user_info_acc.lp_locker_count, 2);
    assert_eq!(accs.user_info_lp_tracker_acc, UserLpInfoAccount { bump: 191, associated_locker_ids: vec![7, 42] });
    assert_eq!(out.fee_transfer, Some(TokenAction::NativeTransfer { from: key(15), to: key(2), amount: 100 }));
    assert_eq!(
        out.event,
        OnSplitLock {
            lock_id: 42,
            old_lock_id: 7,
            lp_token: key(10),
            owner: key(12),
            amount_remaining_in_old_lock: 700,
            amount_removed: 300,
            unlock_date: 2_000,
        }
    );
}

#[test]
fn split_whole_lock_replaces_it_in_the_tracker() {
    let mut accs = split_accs(1_000, 1, vec![5, 7]);
    let bumps = SplitLockBumps { new_lp_locker_acc: 190, user_info_lp_tracker_acc: 191 };
    split_relock_lp(&mut accs, bumps, 7, 1_000).unwrap();
    assert_eq!(accs.lp_locker_acc.current_locked_amount, 0);
    assert_eq!(accs.user_info_acc.lp_locker_count, 1);
    assert_eq!(accs.user_info_lp_tracker_acc.associated_locker_ids, vec![5, 42]);
}

#[test]
fn split_refusals() {
    let bumps = SplitLockBumps { new_lp_locker_acc: 190, user_info_lp_tracker_acc: 191 };
    let mut accs = split_accs(1_000, 1, vec![5]);
    assert_eq!(split_relock_lp(&mut accs, bumps, 7, 1_001).unwrap_err(), LockerError::Uncx(UncxLpError::InvalidWithdrawAmount));
    assert_eq!(split_relock_lp(&mut accs, bumps, 7, 0).unwrap_err(), LockerError::Uncx(UncxLpError::ZeroAmountError));
    assert_eq!(split_relock_lp(&mut accs, bumps, 7, 1_000).unwrap_err(), LockerError::Uncx(UncxLpError::MissingLockerId));
    accs.dev_wallet = key(77);
    assert_eq!(split_relock_lp(&mut accs, bumps, 7, 10).unwrap_err(), LockerError::Framework(FrameworkError::ConstraintRaw));
    accs.lock_owner = key(77);
    assert_eq!(split_relock_lp(&mut accs, bumps, 7, 10).unwrap_err(), LockerError::Uncx(UncxLpError::OwnerMismatchError));
    let mut untouched = split_accs(1_000, 1, vec![5]);
    untouched.dev_wallet = key(77);
    untouched.lock_owner = key(77);
    assert_eq!(accs, untouched);
}

fn transfer_accs() -> TransferLockOwnership {
    TransferLockOwnership {
        payer: key(15),
        lp_locker_acc: lock(1_000),
        lock_owner: key(12),
        old_user_info_acc: user_info(2),
        old_user_info_lp_tracker_acc: tracker(vec![7, 8]),
        new_user_info_acc: UserInfoAccount { bump: 0, user: key(0), lp_mint: key(0), lp_locker_count: 0 },
        new_user_info_lp_tracker_acc: UserLpInfoAccount { bump: 0, associated_locker_ids: vec![] },
    }
}

#[test]
fn transfer_ownership_moves_the_lock() {
    let mut accs = transfer_accs();
    let bumps = TransferLockOwnershipBumps { new_user_info_acc: 180, new_user_info_lp_tracker_acc: 181 };
    let out = transfer_lock_ownership(&mut accs, bumps, 7, key(50)).unwrap();
    assert_eq!(accs.lp_locker_acc.lock_owner, key(50));
    assert_eq!(accs.old_user_info_lp_tracker_acc.associated_locker_ids, vec![8]);
    assert_eq!(accs.old_user_info_acc.lp_locker_count, 1);
    assert_eq!(accs.new_user_info_acc, UserInfoAccount { bump: 180, user: key(50), lp_mint: key(10), lp_locker_count: 1 });
    assert_eq!(accs.new_user_info_lp_tracker_acc, UserLpInfoAccount { bump: 181, associated_locker_ids: vec![7] });
    assert_eq!(out.old_owner_cleanup, TrackerCleanup { tracker_closed: false, user_info_closed: false });
    assert_eq!(out.event, OnTransferLockOwnership { lock_id: 7, lp_token: key(10), old_owner: key(12), new_owner: key(50) });
}

#[test]
fn transfer_ownership_refusals() {
    let bumps = TransferLockOwnershipBumps { new_user_info_acc: 180, new_user_info_lp_tracker_acc: 181 };
    let mut accs = transfer_accs();
    assert_eq!(transfer_lock_ownership(&mut accs, bumps, 8, key(50)).unwrap_err(), LockerError::Framework(FrameworkError::ConstraintRaw));
    assert_eq!(transfer_lock_ownership(&mut accs, bumps, 7, key(12)).unwrap_err(), LockerError::Framework(FrameworkError::ConstraintRaw));
    accs.old_user_info_lp_tracker_acc = tracker(vec![8]);
    assert_eq!(transfer_lock_ownership(&mut accs, bumps, 7, key(50)).unwrap_err(), LockerError::Uncx(UncxLpError::MissingLockerId));
    accs.lock_owner = key(99);
    assert_eq!(transfer_lock_ownership(&mut accs, bumps, 7, key(50)).unwrap_err(), LockerError::Uncx(UncxLpError::OwnerMismatchError));
}

fn withdraw_accs(amount: u64, tracking: bool) -> WithdrawLp {
    WithdrawLp {
        lp_locker_acc: lock(amount),
        lock_owner: key(12),
        uncx_authority_acc: key(3),
        uncx_lock_lp_vault_acc: token_account(13, 3, amount),
        config_account: config_account(),
        user_lp_token_acc: token_account(16, 12, 0),
        user_info_acc: if tracking { Some(user_info(1)) } else { None },
        user_info_lp_tracker_acc: if tracking { Some(tracker(vec![7])) } else { None },
    }
}

#[test]
fn withdraw_after_unlock() {
    let mut accs = withdraw_accs(1_000, false);
    let out = withdraw_lp(&mut accs, 2_001, 7, 400).unwrap();
    assert_eq!(accs.lp_locker_acc.current_locked_amount, 600);
    assert_eq!(out.cleanup, None);
    assert_eq!(out.transfer, TokenAction::SignedTokenTransfer { from: key(13), to: key(16), authority: key(3), authority_bump: 254, amount: 400 });
    assert_eq!(out.event, OnWithdraw { lock_id: 7, lp_token: key(10), owner: key(12), amount_remaining_in_lock: 600, amount_removed: 400 });
}

#[test]
fn withdraw_everything_cleans_tracking() {
    let mut accs = withdraw_accs(1_000, true);
    let out = withdraw_lp(&mut accs, 2_001, 7, 1_000).unwrap();
    assert_eq!(accs.lp_locker_acc.current_locked_amount, 0);
    assert_eq!(out.cleanup, Some(TrackerCleanup { tracker_closed: true, user_info_closed: true }));
    assert_eq!(accs.user_info_acc.unwrap().lp_locker_count, 0);
    assert!(accs.user_info_lp_tracker_acc.unwrap().associated_locker_ids.is_empty());
}

#[test]
fn withdraw_refusals() {
    let mut accs = withdraw_accs(1_000, false);
    assert_eq!(withdraw_lp(&mut accs, 2_000, 7, 400).unwrap_err(), LockerError::Uncx(UncxLpError::LpStillLockedError));
    assert_eq!(withdraw_lp(&mut accs, 1_500, 7, 400).unwrap_err(), LockerError::Uncx(UncxLpError::LpStillLockedError));
    assert_eq!(
        withdraw_lp(&mut accs, 2_001, 7, 1_001).unwrap_err(),
        LockerError::Uncx(UncxLpError::InsufficentLockBalanceForWithdrawalError)
    );
    assert_eq!(withdraw_lp(&mut accs, 2_001, 7, 0).unwrap_err(), LockerError::Uncx(UncxLpError::InvalidWithdrawAmount));
    assert_eq!(withdraw_lp(&mut accs, 2_001, 7, 1_000).unwrap_err(), LockerError::Uncx(UncxLpError::MissingRequiredAccount));
    accs.lock_owner = key(99);
    assert_eq!(withdraw_lp(&mut accs, 2_001, 7, 10).unwrap_err(), LockerError::Uncx(UncxLpError::OwnerMismatchError));
    let mut untouched = withdraw_accs(1_000, false);
    untouched.lock_owner = key(99);
    assert_eq!(accs, untouched);
}

fn migrate_accs(amount: u64) -> MigrateLp {
    MigrateLp {
        whitelisted_migrator_authority: key(60),
        migrator_marker_acc: Migrator { bump: 170 },
        lp_locker_acc: lock(amount),
        lock_owner: key(12),
        uncx_authority_acc: key(3),
        uncx_lock_lp_vault_acc: token_account(13, 3, amount),
        config_account: config_account(),
        migrator_token_lp_account: token_account(17, 60, 0),
        user_info_acc: Some(user_info(3)),
        user_info_lp_tracker_acc: Some(tracker(vec![7])),
    }
}

#[test]
fn migrate_before_unlock() {
    let mut accs = migrate_accs(1_000);
    let out = migrate_lp(&mut accs, 7, 1_000, 2).unwrap();
    assert_eq!(accs.lp_locker_acc.current_locked_amount, 0);
    assert_eq!(out.cleanup, Some(TrackerCleanup { tracker_closed: true, user_info_closed: false }));
    assert_eq!(out.transfer, TokenAction::SignedTokenTransfer { from: key(13), to: key(17), authority: key(3), authority_bump: 254, amount: 1_000 });
    assert_eq!(
        out.event,
        OnMigrate { lock_id: 7, lp_token: key(10), owner: key(12), amount_remaining_in_lock: 0, amount_migrated: 1_000, migration_option: 2 }
    );
    let mut accs = migrate_accs(1_000);
    assert_eq!(migrate_lp(&mut accs, 7, 0, 2).unwrap_err(), LockerError::Uncx(UncxLpError::InvalidWithdrawAmount));
    assert_eq!(
        migrate_lp(&mut accs, 7, 2_000, 2).unwrap_err(),
        LockerError::Uncx(UncxLpError::InsufficentLockBalanceForWithdrawalError)
    );
    accs.uncx_authority_acc = key(4);
    assert_eq!(migrate_lp(&mut accs, 7, 10, 2).unwrap_err(), LockerError::Framework(FrameworkError::ConstraintRaw));
}

fn increment_accs() -> IncrementLockLp {
    IncrementLockLp {
        lp_locker_acc: lock(1_000),
        dev_lp_token_account: token_account(14, 2, 0),
        uncx_lock_lp_vault_acc: token_account(13, 3, 1_000),
        config_account: config_account(),
        increment_lock_lp_entity_lp_token_acc: token_account(18, 61, 5_000),
        increment_lock_lp_entity_authority_acc: key(61),
    }
}

#[test]
fn increment_adds_amount_after_fee() {
    let mut accs = increment_accs();
    let out = increment_lock_lp(&mut accs, 7, 333).unwrap();
    assert_eq!(accs.lp_locker_acc.current_locked_amount, 1_329);
    assert_eq!(out.liquidity_fee_transfer, Some(TokenAction::TokenTransfer { from: key(18), to: key(14), authority: key(61), amount: 4 }));
    assert_eq!(out.lock_transfer, Some(TokenAction::TokenTransfer { from: key(18), to: key(13), authority: key(61), amount: 329 }));
    assert_eq!(
        out.event,
        OnIncrementLock {
            lock_id: 7,
            lp_token: key(10),
            owner: key(12),
            entity: key(61),
            amount_remaining_in_lock: 1_329,
            amount_added: 333,
            liquidity_fee: 4,
        }
    );
    assert_eq!(increment_lock_lp(&mut accs, 7, 0).unwrap_err(), LockerError::Uncx(UncxLpError::ZeroAmountError));
    assert_eq!(increment_lock_lp(&mut accs, 9, 10).unwrap_err(), LockerError::Framework(FrameworkError::ConstraintRaw));
}

#[test]
fn clean_up_of_tracking() {
    let mut t = tracker(vec![3, 7, 7]);
    let mut u = user_info(3);
    assert_eq!(clean_locker_from_tracker_and_close(&mut t, &mut u, 7), Ok(TrackerCleanup { tracker_closed: false, user_info_closed: false }));
    assert_eq!(t.associated_locker_ids, vec![3, 7]);
    assert_eq!(u.lp_locker_count, 2);
    assert_eq!(clean_locker_from_tracker_and_close(&mut t, &mut u, 9), Err(LockerError::Uncx(UncxLpError::MissingLockerId)));
    assert_eq!(u.lp_locker_count, 2);
}
