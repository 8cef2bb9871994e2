use uncx_lp_locker::accounts_ix::lock_lp::{check_token_metadata, CreateAndLockLp, CreateAndLockLpBumps};
use uncx_lp_locker::accounts_ix::{RawAccount, TokenAccountData};
use uncx_lp_locker::error::{FrameworkError, LockerError, RaydiumAmmError, UncxLpError};
use uncx_lp_locker::fees::FeePaymentMethod;
use uncx_lp_locker::metadata::TokenMetadata;
use uncx_lp_locker::pubkey::Pubkey;
use uncx_lp_locker::raydium_port::state::{raydium_amm_id, AmmInfo, AMM_INFO_SIZE, TARGET_ORDERS_SIZE};
use uncx_lp_locker::state::configuration::{Config, ConfigurationAccount, FeesConfig, Whitelisted};
use uncx_lp_locker::state::token_lock::{GlobalLpMintMarker, TokenLock};
use uncx_lp_locker::state::user_info::{UserInfoAccount, UserLpInfoAccount};
use uncx_lp_locker::accounts_ix::withdraw_lp::WithdrawLp;
use uncx_lp_locker::uncx_solana_lp_locker::{create_and_lock_lp, withdraw_lp};
use uncx_lp_locker::instructions::lock_lp::reserve_reading_in_range;
use uncx_lp_locker::utils::TokenAction;

const METADATA_PROGRAM: [u8; 32] = [
    11, 112, 101, 177, 227, 209, 124, 69, 56, 157, 82, 127, 107, 4, 195, 205, 88, 184, 108, 115, 26, 160, 253, 181, 73,
    182, 209, 188, 3, 248, 41, 70,
];

fn key(n: u8) -> Pubkey {
    Pubkey::new_from_array([n; 32])
}

fn put_u64(d: &mut [u8], off: usize, v: u64) {
    d[off..off + 8].copy_from_slice(&v.to_le_bytes());
}

fn amm_bytes() -> Vec<u8> {
    let mut d = vec![0u8; AMM_INFO_SIZE];
    put_u64(&mut d, 0, 3); // withdraw only: reserves are the vaults net of pending pnl
    put_u64(&mut d, 32, 6);
    put_u64(&mut d, 40, 9);
    put_u64(&mut d, 120, 1_000_000_000);
    put_u64(&mut d, 192, 5);
    put_u64(&mut d, 200, 7);
    d[336..368].copy_from_slice(&[31; 32]); // coin vault
    d[368..400].copy_from_slice(&[32; 32]); // pc vault
    d[400..432].copy_from_slice(&[33; 32]); // coin mint
    d[432..464].copy_from_slice(&[34; 32]); // pc mint
    d[464..496].copy_from_slice(&[11; 32]); // lp mint
    d[592..624].copy_from_slice(&[36; 32]); // target orders
    put_u64(&mut d, 720, 55_555);
    d
}

fn metadata_bytes(mint: u8, name: &str, symbol: &str) -> Vec<u8> {
    let mut d = vec![4u8];
    d.extend([9u8; 32]);
    d.extend([mint; 32]);
    for s in [name, symbol, "https://example.invalid"] {
        d.extend((s.len() as u32).to_le_bytes());
        d.extend(s.as_bytes());
    }
    d.extend(500u16.to_le_bytes());
    d.extend([0u8, 1, 1, 0, 0, 0, 0, 0, 0]);
    d
}

fn token_account(k: u8, mint: u8, owner: u8, amount: u64) -> TokenAccountData {
    TokenAccountData { key: key(k), mint: key(mint), owner: key(owner), amount }
}

fn config_account() -> ConfigurationAccount {
    ConfigurationAccount {
        config: Config {
            fee_config: FeesConfig {
                native_fee: 1_000,
                secondary_token_fee: 500,
                secondary_token_discount_bps: 2000,
                liquidity_fee_bps: 100,
                referral_share_bps: 1000,
                referral_discount_bps: 1000,
            },
            min_referral_balance: 10,
            referral_token_address: Some(key(20)),
            secondary_token_address: Some(key(21)),
            admin_key: key(1),
            dev_addr: key(2),
            next_locker_unique_id: 42,
        },
        bump: 255,
        uncx_authority_pda_address: key(3),
        uncx_authority_bump: 254,
        blacklisted_countries: vec![66],
    }
}

fn zero_lock() -> TokenLock {
    TokenLock {
        bump: 0,
        amm_id: key(0),
        lp_mint: key(0),
        lock_global_id: 0,
        lock_date: 0,
        unlock_date: 0,
        country_code: 0,
        initial_lock_amount: 0,
        current_locked_amount: 0,
        lock_owner: key(0),
    }
}

fn accounts() -> CreateAndLockLp {
    CreateAndLockLp {
        payer: key(40),
        uncx_lock_lp_vault_acc: token_account(41, 11, 3, 0),
        uncx_authority_acc: key(3),
        global_lp_marker_acc: GlobalLpMintMarker { bump: 0 },
        lp_locker_acc: zero_lock(),
        config_account: config_account(),
        lp_mint_acc: key(11),
        user_lp_token_acc: token_account(42, 11, 40, 1_000_000),
        user_lp_token_authority_acc: None,
        referral_wallet: None,
        referral_token_account: None,
        user_secondary_token_account: None,
        referral_secondary_token_account: None,
        user_secondary_token_authority_acc: None,
        secondary_token_mint: None,
        dev_lp_token_account: Some(token_account(43, 11, 2, 0)),
        dev_wallet: Some(key(2)),
        user_whitelist_pda_acc: None,
        whitelist_address: None,
        user_info_acc: UserInfoAccount { bump: 0, user: key(0), lp_mint: key(0), lp_locker_count: 0 },
        user_info_lp_tracker_acc: UserLpInfoAccount { bump: 0, associated_locker_ids: vec![] },
        coin_metadata_account: RawAccount {
            key: key(50),
            owner: Pubkey::new_from_array(METADATA_PROGRAM),
            data: metadata_bytes(33, "Coin", "CN"),
        },
        pc_metadata_account: RawAccount {
            key: key(51),
            owner: Pubkey::new_from_array(METADATA_PROGRAM),
            data: metadata_bytes(34, "Price", "PC"),
        },
        amm_info_acc: RawAccount { key: key(52), owner: raydium_amm_id(), data: amm_bytes() },
        amm_target_orders_info_acc: RawAccount { key: key(36), owner: raydium_amm_id(), data: vec![0u8; TARGET_ORDERS_SIZE] },
        pc_vault_token_acc: token_account(32, 34, 53, 1_000_007),
        coin_vault_token_acc: token_account(31, 33, 53, 2_000_005),
    }
}

fn bumps() -> CreateAndLockLpBumps {
    CreateAndLockLpBumps { lp_locker_acc: 101, user_info_acc: 102, user_info_lp_tracker_acc: 103, global_lp_marker_acc: 104 }
}

fn lock(accs: &mut CreateAndLockLp, referral: Option<Pubkey>, method: FeePaymentMethod) -> Result<uncx_lp_locker::instructions::lock_lp::NewLockOutcome, LockerError> {
    create_and_lock_lp(accs, bumps(), 1_000, key(60), key(52), referral, 10_000, 5_000, 44, method)
}

#[test]
fn native_lock_records_everything() {
    let mut accs = accounts();
    let out = lock(&mut accs, None, FeePaymentMethod::Native).unwrap();
    assert_eq!(out.settlement.lock_amount, 9_900);
    assert_eq!(
        out.actions,
        vec![
            TokenAction::NativeTransfer { from: key(40), to: key(2), amount: 1_000 },
            TokenAction::TokenTransfer { from: key(42), to: key(43), authority: key(40), amount: 100 },
            TokenAction::TokenTransfer { from: key(42), to: key(41), authority: key(40), amount: 9_900 },
        ]
    );
    assert_eq!(
        accs.lp_locker_acc,
        TokenLock {
            bump: 101,
            amm_id: key(52),
            lp_mint: key(11),
            lock_global_id: 42,
            lock_date: 1_000,
            unlock_date: 5_000,
            country_code: 44,
            initial_lock_amount: 9_900,
            current_locked_amount: 9_900,
            lock_owner: key(60),
        }
    );
    assert_eq!(accs.user_info_acc, UserInfoAccount { bump: 102, user: key(60), lp_mint: key(52), lp_locker_count: 1 });
    assert_eq!(accs.user_info_lp_tracker_acc, UserLpInfoAccount { bump: 103, associated_locker_ids: vec![42] });
    assert_eq!(accs.config_account.config.next_locker_unique_id, 43);
    assert_eq!(accs.global_lp_marker_acc, GlobalLpMintMarker { bump: 104 });
    let e = out.event;
    assert_eq!(e.lock_id, 42);
    assert_eq!(e.amount, 9_900);
    assert_eq!(e.coin_token_name, "Coin");
    assert_eq!(e.coin_token_symbol, "CN");
    assert_eq!(e.pc_token_name, "Price");
    assert_eq!(e.pc_token_symbol, "PC");
    assert_eq!(e.coin_token_decimals, 6);
    assert_eq!(e.pc_token_decimals, 9);
    assert_eq!(e.coin_mint, key(33));
    assert_eq!(e.pc_mint, key(34));
    assert_eq!(e.amm_real_liquidity, 55_555);
    assert_eq!(e.amm_real_pc_reserve, 1_000_000);
    assert_eq!(e.amm_real_coin_reserve, 2_000_000);
}

#[test]
fn native_lock_with_referral_pays_the_referrer() {
    let mut accs = accounts();
    accs.referral_wallet = Some(key(70));
    accs.referral_token_account = Some(token_account(71, 20, 70, 11));
    let out = lock(&mut accs, Some(key(70)), FeePaymentMethod::Native).unwrap();
    assert_eq!(out.actions[0], TokenAction::NativeTransfer { from: key(40), to: key(2), amount: 810 });
    assert_eq!(out.actions[1], TokenAction::NativeTransfer { from: key(40), to: key(70), amount: 90 });
    let mut accs = accounts();
    accs.referral_wallet = Some(key(72));
    accs.referral_token_account = Some(token_account(71, 20, 70, 11));
    assert_eq!(lock(&mut accs, Some(key(70)), FeePaymentMethod::Native).unwrap_err(), LockerError::Uncx(UncxLpError::MissingRequiredAccount));
}

#[test]
fn non_native_lock_burns_the_secondary_token() {
    let mut accs = accounts();
    accs.user_secondary_token_account = Some(token_account(80, 21, 40, 10_000));
    accs.secondary_token_mint = Some(key(21));
    let out = lock(&mut accs, None, FeePaymentMethod::NonNative).unwrap();
    assert_eq!(
        out.actions,
        vec![
            TokenAction::Burn { from: key(80), mint: key(21), authority: key(40), amount: 500 },
            TokenAction::TokenTransfer { from: key(42), to: key(43), authority: key(40), amount: 80 },
            TokenAction::TokenTransfer { from: key(42), to: key(41), authority: key(40), amount: 9_920 },
        ]
    );
}

#[test]
fn whitelisted_lock_pays_only_the_liquidity_fee() {
    let mut accs = accounts();
    accs.user_whitelist_pda_acc = Some(Whitelisted { bump: 9 });
    accs.user_lp_token_authority_acc = Some(key(45));
    let out = lock(&mut accs, None, FeePaymentMethod::Whitelisted).unwrap();
    assert_eq!(
        out.actions,
        vec![
            TokenAction::TokenTransfer { from: key(42), to: key(43), authority: key(45), amount: 100 },
            TokenAction::TokenTransfer { from: key(42), to: key(41), authority: key(45), amount: 9_900 },
        ]
    );
}

#[test]
fn lock_input_refusals() {
    let mut accs = accounts();
    let m = FeePaymentMethod::Native;
    let err = |r: Result<uncx_lp_locker::instructions::lock_lp::NewLockOutcome, LockerError>| r.unwrap_err();
    assert_eq!(
        err(create_and_lock_lp(&mut accs, bumps(), 1_000, key(60), key(52), None, 10, 10_000_000_000, 44, m)),
        LockerError::Uncx(UncxLpError::InvalidTimeBoundError)
    );
    assert_eq!(
        err(create_and_lock_lp(&mut accs, bumps(), 1_000, key(60), key(52), None, 10, 1_000, 44, m)),
        LockerError::Uncx(UncxLpError::InvalidUnlockDateError)
    );
    assert_eq!(
        err(create_and_lock_lp(&mut accs, bumps(), 1_000, key(60), key(52), None, 0, 5_000, 44, m)),
        LockerError::Uncx(UncxLpError::ZeroAmountError)
    );
    assert_eq!(
        err(create_and_lock_lp(&mut accs, bumps(), 1_000, key(60), key(52), None, 10, 5_000, 66, m)),
        LockerError::Uncx(UncxLpError::BlackListedCountryError)
    );
    assert_eq!(
        err(create_and_lock_lp(&mut accs, bumps(), 1_000, key(60), key(52), Some(key(70)), 10, 5_000, 44, m)),
        LockerError::Uncx(UncxLpError::MissingReferralAccount)
    );
    assert_eq!(
        err(create_and_lock_lp(&mut accs, bumps(), 1_000, key(60), key(52), None, 10, 5_000, 44, FeePaymentMethod::Whitelisted)),
        LockerError::Uncx(UncxLpError::MissingWhitelistAccount)
    );
    assert_eq!(
        err(create_and_lock_lp(&mut accs, bumps(), 1_000, key(60), key(52), None, 10, 5_000, 44, FeePaymentMethod::NonNative)),
        LockerError::Uncx(UncxLpError::MissingRequiredAccount)
    );
    assert_eq!(accs, accounts());
}

#[test]
fn lock_account_refusals() {
    let m = FeePaymentMethod::Native;
    let mut accs = accounts();
    accs.uncx_authority_acc = key(4);
    assert_eq!(lock(&mut accs, None, m).unwrap_err(), LockerError::Framework(FrameworkError::ConstraintRaw));
    let mut accs = accounts();
    accs.amm_info_acc.owner = key(4);
    assert_eq!(lock(&mut accs, None, m).unwrap_err(), LockerError::Raydium(RaydiumAmmError::InvalidAmmAccountOwner));
    let mut accs = accounts();
    accs.lp_mint_acc = key(4);
    assert_eq!(lock(&mut accs, None, m).unwrap_err(), LockerError::Framework(FrameworkError::ConstraintRaw));
    let mut accs = accounts();
    accs.referral_token_account = Some(token_account(71, 20, 70, 9));
    assert_eq!(lock(&mut accs, None, m).unwrap_err(), LockerError::Uncx(UncxLpError::InsufficientReferralBalance));
    let mut accs = accounts();
    accs.referral_wallet = Some(key(70));
    accs.referral_token_account = Some(token_account(71, 20, 70, 10));
    assert_eq!(
        lock(&mut accs, Some(key(70)), m).unwrap_err(),
        LockerError::Uncx(UncxLpError::InsufficientReferralBalance)
    );
    let mut accs = accounts();
    accs.secondary_token_mint = Some(key(4));
    assert_eq!(lock(&mut accs, None, m).unwrap_err(), LockerError::Uncx(UncxLpError::InvalidAccountError));
    let mut accs = accounts();
    accs.dev_wallet = Some(key(4));
    assert_eq!(lock(&mut accs, None, m).unwrap_err(), LockerError::Framework(FrameworkError::ConstraintRaw));
    let mut accs = accounts();
    accs.dev_wallet = None;
    assert_eq!(lock(&mut accs, None, m).unwrap_err(), LockerError::Uncx(UncxLpError::MissingRequiredAccount));
}

#[test]
fn lock_pool_and_metadata_refusals() {
    let m = FeePaymentMethod::Native;
    let mut accs = accounts();
    accs.pc_vault_token_acc.key = key(4);
    assert_eq!(lock(&mut accs, None, m).unwrap_err(), LockerError::Uncx(UncxLpError::InvalidRaydiumV4Accounts));
    let mut accs = accounts();
    accs.pc_vault_token_acc.amount = 3;
    assert_eq!(lock(&mut accs, None, m).unwrap_err(), LockerError::Raydium(RaydiumAmmError::CheckedSubOverflow));
    let mut accs = accounts();
    accs.coin_metadata_account.data = vec![4, 1, 2];
    assert_eq!(lock(&mut accs, None, m).unwrap_err(), LockerError::Framework(FrameworkError::BorshIoError));
    let mut accs = accounts();
    accs.pc_metadata_account.data = metadata_bytes(99, "Price", "PC");
    assert_eq!(lock(&mut accs, None, m).unwrap_err(), LockerError::Uncx(UncxLpError::InvalidTokenMetadata));
    let mut accs = accounts();
    accs.coin_metadata_account.owner = key(4);
    assert_eq!(lock(&mut accs, None, m).unwrap_err(), LockerError::Uncx(UncxLpError::InvalidTokenMetadata));
}

#[test]
fn metadata_check_on_decoded_results() {
    let amm = AmmInfo::load(&amm_bytes());
    let program = Pubkey::new_from_array(METADATA_PROGRAM);
    let coin = TokenMetadata { mint: key(33), name: "Coin".to_string(), symbol: "CN".to_string() };
    let pc = TokenMetadata { mint: key(34), name: "Price".to_string(), symbol: "PC".to_string() };
    assert_eq!(
        check_token_metadata(&amm, &program, &program, Ok(coin.clone()), Ok(pc.clone())).unwrap(),
        (coin.clone(), pc.clone())
    );
    let bad = std::io::Error::new(std::io::ErrorKind::Other, "bad");
    assert_eq!(
        check_token_metadata(&amm, &program, &program, Err(bad), Ok(pc.clone())).unwrap_err(),
        LockerError::Framework(FrameworkError::BorshIoError)
    );
    assert_eq!(
        check_token_metadata(&amm, &program, &key(1), Ok(coin.clone()), Ok(pc)).unwrap_err(),
        LockerError::Uncx(UncxLpError::InvalidTokenMetadata)
    );
}

#[test]
fn withdraw_all_after_lock_restores_tracking() {
    let mut accs = accounts();
    accs.user_info_acc.lp_locker_count = 2;
    accs.user_info_lp_tracker_acc.associated_locker_ids = vec![3, 5];
    lock(&mut accs, None, FeePaymentMethod::Native).unwrap();
    assert_eq!(accs.user_info_lp_tracker_acc.associated_locker_ids, vec![3, 5, 42]);
    let mut w = WithdrawLp {
        lp_locker_acc: accs.lp_locker_acc,
        lock_owner: key(60),
        uncx_authority_acc: key(3),
        uncx_lock_lp_vault_acc: accs.uncx_lock_lp_vault_acc,
        config_account: accs.config_account.clone(),
        user_lp_token_acc: token_account(90, 11, 60, 0),
        user_info_acc: Some(accs.user_info_acc),
        user_info_lp_tracker_acc: Some(accs.user_info_lp_tracker_acc.clone()),
    };
    withdraw_lp(&mut w, 5_001, 42, 9_900).unwrap();
    assert_eq!(w.lp_locker_acc.current_locked_amount, 0);
    assert_eq!(w.user_info_lp_tracker_acc.unwrap().associated_locker_ids, vec![3, 5]);
    assert_eq!(w.user_info_acc.unwrap().lp_locker_count, 2);
}

#[test]
fn reserve_reading_range_check() {
    let m = FeePaymentMethod::Native;
    let accs = accounts();
    let info = AmmInfo::load(&accs.amm_info_acc.data);
    assert!(accs.reserves_are_readable(&info));
    assert!(reserve_reading_in_range(&accs, 1_000, 10_000, 5_000, 44, None, m));
    // target orders of the wrong size cannot be read once the lock gets as far as the reserves
    let mut accs = accounts();
    accs.amm_target_orders_info_acc.data = vec![0u8; 8];
    let info = AmmInfo::load(&accs.amm_info_acc.data);
    assert!(!accs.reserves_are_readable(&info));
    assert!(!reserve_reading_in_range(&accs, 1_000, 10_000, 5_000, 44, None, m));
    // a lock refused before the reserves never reads them
    assert!(reserve_reading_in_range(&accs, 1_000, 0, 5_000, 44, None, m));
    // vault accounts that are not the pool's are refused before anything is read
    accs.pc_vault_token_acc.key = key(4);
    assert!(accs.reserves_are_readable(&info));
}
