use uncx_lp_locker::error::{LockerError, UncxLpError};
use uncx_lp_locker::pubkey::Pubkey;
use uncx_lp_locker::raydium_port::math::{checked_pow10, Calculator, U256};
use uncx_lp_locker::state::configuration::{Config, ConfigurationAccount, FeesConfig};
use uncx_lp_locker::state::search::{position_u64, position_u8};
use uncx_lp_locker::state::user_info::{UserInfoAccount, UserLpInfoAccount, MAX_LP_TRACK_PER_ACCOUNT};

fn key(n: u8) -> Pubkey {
    Pubkey::new_from_array([n; 32])
}

fn fees(bps: u16) -> FeesConfig {
    FeesConfig {
        native_fee: 1,
        secondary_token_fee: 2,
        secondary_token_discount_bps: bps,
        liquidity_fee_bps: 100,
        referral_share_bps: 200,
        referral_discount_bps: 300,
    }
}

fn config_account() -> ConfigurationAccount {
    ConfigurationAccount {
        config: Config {
            fee_config: fees(0),
            min_referral_balance: 0,
            referral_token_address: None,
            secondary_token_address: None,
            admin_key: key(1),
            dev_addr: key(2),
            next_locker_unique_id: 17,
        },
        bump: 1,
        uncx_authority_pda_address: key(3),
        uncx_authority_bump: 2,
        blacklisted_countries: vec![4, 5],
    }
}

#[test]
fn basis_points_checks() {
    assert_eq!(FeesConfig::basis_points_validate(10000), Ok(()));
    assert_eq!(FeesConfig::basis_points_validate(10001), Err(LockerError::Uncx(UncxLpError::InvalidPercentage)));
    assert_eq!(fees(10000).basis_points_sanity_check(), Ok(()));
    assert_eq!(fees(10001).basis_points_sanity_check(), Err(LockerError::Uncx(UncxLpError::InvalidPercentage)));
}

#[test]
fn configuration_setters() {
    let mut c = config_account();
    assert_eq!(c.get_next_locker_id(), 17);
    c.set_developer_address(key(9));
    assert_eq!(c.config.dev_addr, key(9));
    c.set_new_admin(key(8));
    assert_eq!(c.config.admin_key, key(8));
    c.set_secondary_fee_token(Some(key(7)));
    assert_eq!(c.config.secondary_token_address, Some(key(7)));
    c.set_referral_token_address(Some(key(6)));
    assert_eq!(c.config.referral_token_address, Some(key(6)));
    c.set_referral_token_and_min_hold_balance(None, 99);
    assert_eq!(c.config.referral_token_address, None);
    assert_eq!(c.config.min_referral_balance, 99);
    assert_eq!(c.set_fees_config(fees(20000)), Err(LockerError::Uncx(UncxLpError::InvalidPercentage)));
    assert_eq!(c.set_fees_config(fees(50)), Ok(()));
    assert_eq!(c.config.fee_config, fees(50));
    assert_eq!(c.blacklisted_countries, vec![4, 5]);
}

#[test]
fn tracker_index_and_space() {
    let mut u = UserInfoAccount { bump: 0, user: key(1), lp_mint: key(2), lp_locker_count: 0 };
    assert_eq!(u.next_user_lp_acc_index(), 0u64.to_le_bytes());
    u.lp_locker_count = MAX_LP_TRACK_PER_ACCOUNT as u64 * 3 + 14;
    assert_eq!(u.next_user_lp_acc_index(), 3u64.to_le_bytes());
    u.lp_locker_count = u64::MAX;
    assert_eq!(u.next_user_lp_acc_index(), (u64::MAX / 15).to_le_bytes());
    assert_eq!(UserLpInfoAccount::space(15), 8 + 1 + 4 + 15 * 8);
    assert_eq!(UserLpInfoAccount::space(0), 13);
}

#[test]
fn tracker_removal() {
    let mut t = UserLpInfoAccount { bump: 4, associated_locker_ids: vec![1, 2, 1] };
    assert_eq!(t.find_and_remove_locker_from_tracking(1), Ok(()));
    assert_eq!(t.associated_locker_ids, vec![2, 1]);
    assert_eq!(t.find_and_remove_locker_from_tracking(3), Err(LockerError::Uncx(UncxLpError::MissingLockerId)));
    assert_eq!(t.associated_locker_ids, vec![2, 1]);
}

#[test]
fn first_positions() {
    assert_eq!(position_u8(&vec![3, 4, 4], 4), Some(1));
    assert_eq!(position_u8(&vec![3, 4, 4], 5), None);
    assert_eq!(position_u64(&vec![], 5), None);
    assert_eq!(position_u64(&vec![5, 5], 5), Some(0));
}

#[test]
fn decimal_scaling() {
    assert_eq!(checked_pow10(0), Some(1));
    assert_eq!(checked_pow10(38), Some(10u128.pow(38)));
    assert_eq!(checked_pow10(39), None);
    assert_eq!(Calculator::normalize_decimal_v2(1_234, 3, 1_000_000_000), 1_234_000_000);
    assert_eq!(Calculator::restore_decimal(1_234_000_000, 3, 1_000_000_000), 1_234);
    assert_eq!(Calculator::restore_decimal(1_999, 0, 1_000), 1);
}

#[test]
fn constant_product_power() {
    let w = |x: u64| U256 { limbs: [x, 0, 0, 0] };
    // last_x * last_y * current_x / current_y = 6 * 7 * 10 / 4 = 105
    assert_eq!(Calculator::calc_x_power(w(6), w(7), w(10), w(4)).limbs, [105, 0, 0, 0]);
}
