use uncx_lp_locker::accounts_ix::add_migrator_ix::AddMigrator;
use uncx_lp_locker::accounts_ix::add_whitelist_ix::AddWhitelistAcc;
use uncx_lp_locker::accounts_ix::admin_ix::AdminIx;
use uncx_lp_locker::accounts_ix::initialize_ix::{InitializeConfig, InitializeConfigBumps};
use uncx_lp_locker::accounts_ix::remove_migrator_ix::RemoveMigrator;
use uncx_lp_locker::accounts_ix::remove_whitelist_ix::RemoveWhitelistAcc;
use uncx_lp_locker::constants::initial_admin;
use uncx_lp_locker::error::{FrameworkError, LockerError, UncxLpError};
use uncx_lp_locker::pubkey::Pubkey;
use uncx_lp_locker::state::configuration::{Config, ConfigurationAccount, FeesConfig, Migrator, Whitelisted};
use uncx_lp_locker::uncx_solana_lp_locker::{
    add_country_to_blacklist, add_migrator, add_whitelist, initialize, remove_country_from_blacklist, remove_migrator,
    remove_whitelist, set_dev, set_new_admin, set_new_fees_config, set_referral_token_hold_balance,
    set_secondary_token,
};

fn key(n: u8) -> Pubkey {
    Pubkey::new_from_array([n; 32])
}

fn fees() -> FeesConfig {
    FeesConfig {
        native_fee: 100,
        secondary_token_fee: 50,
        secondary_token_discount_bps: 2000,
        liquidity_fee_bps: 100,
        referral_share_bps: 1000,
        referral_discount_bps: 1000,
    }
}

fn config_account() -> ConfigurationAccount {
    ConfigurationAccount {
        config: Config {
            fee_config: fees(),
            min_referral_balance: 10,
            referral_token_address: Some(key(20)),
            secondary_token_address: Some(key(21)),
            admin_key: key(1),
            dev_addr: key(2),
            next_locker_unique_id: 0,
        },
        bump: 255,
        uncx_authority_pda_address: key(3),
        uncx_authority_bump: 254,
        blacklisted_countries: vec![7, 9],
    }
}

fn admin_accs(signer: u8) -> AdminIx {
    AdminIx { admin_sign: key(signer), config_account: config_account() }
}

fn empty_config_account() -> ConfigurationAccount {
    ConfigurationAccount {
        config: Config {
            fee_config: FeesConfig {
                native_fee: 0,
                secondary_token_fee: 0,
                secondary_token_discount_bps: 0,
                liquidity_fee_bps: 0,
                referral_share_bps: 0,
                referral_discount_bps: 0,
            },
            min_referral_balance: 0,
            referral_token_address: None,
            secondary_token_address: None,
            admin_key: key(0),
            dev_addr: key(0),
            next_locker_unique_id: 0,
        },
        bump: 0,
        uncx_authority_pda_address: key(0),
        uncx_authority_bump: 0,
        blacklisted_countries: vec![],
    }
}

#[test]
fn initialize_by_initial_admin() {
    let mut accs = InitializeConfig {
        payer: key(8),
        config_account: empty_config_account(),
        initial_admin: initial_admin(),
        uncx_authority_acc: key(3),
    };
    let bumps = InitializeConfigBumps { config_account: 250, uncx_authority_acc: 251 };
    let initial = config_account().config;
    assert_eq!(initialize(&mut accs, bumps, initial, Some([1, 2, 3, 4, 5, 6, 7, 8, 9, 10])), Ok(()));
    assert_eq!(accs.config_account.config, initial);
    assert_eq!(accs.config_account.bump, 250);
    assert_eq!(accs.config_account.uncx_authority_pda_address, key(3));
    assert_eq!(accs.config_account.uncx_authority_bump, 251);
    assert_eq!(accs.config_account.blacklisted_countries, vec![1, 2, 3, 4, 5, 6, 7, 8, 9, 10]);
}

#[test]
fn initialize_without_blacklist() {
    let mut accs = InitializeConfig {
        payer: key(8),
        config_account: empty_config_account(),
        initial_admin: initial_admin(),
        uncx_authority_acc: key(3),
    };
    let bumps = InitializeConfigBumps { config_account: 250, uncx_authority_acc: 251 };
    assert_eq!(initialize(&mut accs, bumps, config_account().config, None), Ok(()));
    assert!(accs.config_account.blacklisted_countries.is_empty());
}

#[test]
fn initialize_refusals() {
    let bumps = InitializeConfigBumps { config_account: 250, uncx_authority_acc: 251 };
    let mut accs = InitializeConfig {
        payer: key(8),
        config_account: empty_config_account(),
        initial_admin: key(1),
        uncx_authority_acc: key(3),
    };
    assert_eq!(
        initialize(&mut accs, bumps, config_account().config, None),
        Err(LockerError::Framework(FrameworkError::ConstraintAddress))
    );
    accs.initial_admin = initial_admin();
    let mut cfg = config_account().config;
    cfg.next_locker_unique_id = 3;
    assert_eq!(initialize(&mut accs, bumps, cfg, None), Err(LockerError::Framework(FrameworkError::RequireEqViolated)));
    let mut cfg = config_account().config;
    cfg.fee_config.referral_share_bps = 10001;
    assert_eq!(initialize(&mut accs, bumps, cfg, None), Err(LockerError::Uncx(UncxLpError::InvalidPercentage)));
    assert_eq!(accs.config_account, empty_config_account());
}

#[test]
fn non_admin_is_refused_everywhere() {
    let raw = Err(LockerError::Framework(FrameworkError::ConstraintRaw));
    let mut accs = admin_accs(5);
    assert_eq!(set_dev(&mut accs, key(30)), raw);
    assert_eq!(set_new_admin(&mut accs, key(30)), raw);
    assert_eq!(set_new_fees_config(&mut accs, fees()), raw);
    assert_eq!(set_referral_token_hold_balance(&mut accs, 1, None), raw);
    assert_eq!(set_secondary_token(&mut accs, None), raw);
    assert_eq!(add_country_to_blacklist(&mut accs, 1), raw);
    assert_eq!(remove_country_from_blacklist(&mut accs, 7), raw);
    assert_eq!(accs, admin_accs(5));
}

#[test]
fn admin_sets_dev_and_admin() {
    let mut accs = admin_accs(1);
    assert_eq!(set_dev(&mut accs, key(30)), Ok(()));
    assert_eq!(accs.config_account.config.dev_addr, key(30));
    assert_eq!(set_dev(&mut accs, key(30)), Err(LockerError::Framework(FrameworkError::RequireKeysNeqViolated)));
    assert_eq!(set_new_admin(&mut accs, key(1)), Err(LockerError::Framework(FrameworkError::RequireKeysNeqViolated)));
    assert_eq!(set_new_admin(&mut accs, key(31)), Ok(()));
    assert_eq!(accs.config_account.config.admin_key, key(31));
    // the old admin is no admin any more
    assert_eq!(set_dev(&mut accs, key(32)), Err(LockerError::Framework(FrameworkError::ConstraintRaw)));
}

#[test]
fn admin_sets_fees() {
    let mut accs = admin_accs(1);
    let mut f = fees();
    f.liquidity_fee_bps = 10000;
    assert_eq!(set_new_fees_config(&mut accs, f), Ok(()));
    assert_eq!(accs.config_account.config.fee_config, f);
    f.secondary_token_discount_bps = 10001;
    assert_eq!(set_new_fees_config(&mut accs, f), Err(LockerError::Uncx(UncxLpError::InvalidPercentage)));
    assert_eq!(accs.config_account.config.fee_config.secondary_token_discount_bps, 2000);
}

#[test]
fn admin_sets_referral_and_secondary_tokens() {
    let mut accs = admin_accs(1);
    assert_eq!(
        set_referral_token_hold_balance(&mut accs, 5, Some(key(20))),
        Err(LockerError::Framework(FrameworkError::RequireKeysNeqViolated))
    );
    assert_eq!(set_referral_token_hold_balance(&mut accs, 5, Some(key(22))), Ok(()));
    assert_eq!(accs.config_account.config.referral_token_address, Some(key(22)));
    assert_eq!(accs.config_account.config.min_referral_balance, 5);
    assert_eq!(set_referral_token_hold_balance(&mut accs, 6, None), Ok(()));
    assert_eq!(accs.config_account.config.referral_token_address, None);
    assert_eq!(
        set_secondary_token(&mut accs, Some(key(21))),
        Err(LockerError::Framework(FrameworkError::RequireKeysNeqViolated))
    );
    assert_eq!(set_secondary_token(&mut accs, None), Ok(()));
    assert_eq!(set_secondary_token(&mut accs, Some(key(21))), Ok(()));
    assert_eq!(accs.config_account.config.secondary_token_address, Some(key(21)));
}

#[test]
fn blacklist_add_and_remove() {
    let mut accs = admin_accs(1);
    assert!(accs.config_account.is_country_allowed(3));
    assert_eq!(add_country_to_blacklist(&mut accs, 3), Ok(()));
    assert!(!accs.config_account.is_country_allowed(3));
    assert_eq!(accs.config_account.blacklisted_countries, vec![7, 9, 3]);
    assert_eq!(add_country_to_blacklist(&mut accs, 9), Err(LockerError::Uncx(UncxLpError::CountryCodeAlreadyExists)));
    assert_eq!(remove_country_from_blacklist(&mut accs, 3), Ok(()));
    assert_eq!(accs.config_account.blacklisted_countries, vec![7, 9]);
    assert_eq!(remove_country_from_blacklist(&mut accs, 7), Ok(()));
    // the last entry takes the removed one's place
    assert_eq!(accs.config_account.blacklisted_countries, vec![9]);
    assert_eq!(remove_country_from_blacklist(&mut accs, 7), Err(LockerError::Uncx(UncxLpError::CountryCodeNotPresent)));
}

#[test]
fn markers_for_whitelist_and_migrators() {
    let mut w = AddWhitelistAcc {
        payer: key(8),
        admin_sign: key(1),
        config_account: config_account(),
        user_whitelist_pda_acc: Whitelisted { bump: 0 },
    };
    assert_eq!(add_whitelist(&mut w, 201, key(40)), Ok(()));
    assert_eq!(w.user_whitelist_pda_acc, Whitelisted { bump: 201 });
    w.admin_sign = key(2);
    assert_eq!(add_whitelist(&mut w, 202, key(40)), Err(LockerError::Framework(FrameworkError::ConstraintRaw)));
    let mut m = AddMigrator { payer: key(8), admin_sign: key(1), config_account: config_account(), migrator_marker_acc: Migrator { bump: 0 } };
    assert_eq!(add_migrator(&mut m, 203, key(41)), Ok(()));
    assert_eq!(m.migrator_marker_acc, Migrator { bump: 203 });
    let rw = RemoveWhitelistAcc {
        config_account: config_account(),
        admin_sign: key(1),
        user_whitelist_pda_acc: Whitelisted { bump: 201 },
        receiver: key(8),
    };
    assert_eq!(remove_whitelist(&rw, key(40)), Ok(()));
    let rm = RemoveMigrator { config_account: config_account(), admin_sign: key(4), migrator_marker_acc: Migrator { bump: 203 }, receiver: key(8) };
    assert_eq!(remove_migrator(&rm, key(41)), Err(LockerError::Framework(FrameworkError::ConstraintRaw)));
}

#[test]
fn blacklist_never_repeats_a_code() {
    let mut accs = admin_accs(1);
    for code in 0..=255u8 {
        let _ = add_country_to_blacklist(&mut accs, code);
        let _ = add_country_to_blacklist(&mut accs, code);
    }
    let mut seen = accs.config_account.blacklisted_countries.clone();
    seen.sort();
    seen.dedup();
    assert_eq!(seen.len(), accs.config_account.blacklisted_countries.len());
    assert_eq!(accs.config_account.blacklisted_countries.len(), 256);
    assert_eq!(remove_country_from_blacklist(&mut accs, 7), Ok(()));
    let mut seen = accs.config_account.blacklisted_countries.clone();
    seen.sort();
    seen.dedup();
    assert_eq!(seen.len(), 255);
}
