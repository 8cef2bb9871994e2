use uncx_lp_locker::error::{LockerError, UncxLpError};
use uncx_lp_locker::fees::{
    calc_fee, calc_fee_ceil, calc_settlement, calc_total_after_fee_cuts, calc_total_after_fee_cuts_ceil, conv_to_u64,
    liquidity_fee_units, FeePaymentMethod, Settlement,
};
use uncx_lp_locker::state::configuration::FeesConfig;

const ONE: i128 = 1i128 << 48;

fn config() -> FeesConfig {
    FeesConfig {
        native_fee: 1_000_000,
        secondary_token_fee: 500,
        secondary_token_discount_bps: 2000,
        liquidity_fee_bps: 100,
        referral_share_bps: 1000,
        referral_discount_bps: 1000,
    }
}

#[test]
fn fixed_point_units() {
    assert_eq!(conv_to_u64(5 * ONE + ONE / 2), Ok(5));
    assert_eq!(conv_to_u64(-ONE), Err(LockerError::Uncx(UncxLpError::MathError)));
}

#[test]
fn fee_is_amount_times_bps_over_ten_thousand() {
    assert_eq!(calc_fee(1000 * ONE, 250), Ok(25 * ONE));
    assert_eq!(calc_fee(1000 * ONE, 0), Ok(0));
    // 1001 * 2.5 % = 25.025 units
    let f = calc_fee(1001 * ONE, 250).unwrap();
    assert_eq!(conv_to_u64(f), Ok(25));
    assert!(f > 25 * ONE);
}

#[test]
fn fee_ceil_rounds_up_to_a_unit() {
    assert_eq!(calc_fee_ceil(1001 * ONE, 250), Ok(26 * ONE));
    assert_eq!(calc_fee_ceil(1000 * ONE, 250), Ok(25 * ONE));
    assert_eq!(calc_fee_ceil(1000 * ONE, 0), Ok(0));
}

#[test]
fn fee_overflow_is_a_math_error() {
    assert_eq!(calc_fee(i128::MAX, 10000), Err(LockerError::Uncx(UncxLpError::MathError)));
    assert_eq!(calc_fee_ceil(i128::MAX, 10000), Err(LockerError::Uncx(UncxLpError::MathError)));
}

#[test]
fn after_fee_cuts() {
    assert_eq!(calc_total_after_fee_cuts(10 * ONE, 3 * ONE), Ok(7 * ONE));
    assert_eq!(calc_total_after_fee_cuts_ceil(10 * ONE, 3 * ONE + 1), Ok(7 * ONE));
    assert_eq!(calc_total_after_fee_cuts(i128::MIN, ONE), Err(LockerError::Uncx(UncxLpError::MathError)));
}

#[test]
fn liquidity_fee_units_rounds_up() {
    assert_eq!(liquidity_fee_units(1001, 250), Ok(26));
    assert_eq!(liquidity_fee_units(333, 100), Ok(4));
    assert_eq!(liquidity_fee_units(1000, 0), Ok(0));
    assert_eq!(liquidity_fee_units(u64::MAX, 10000), Ok(u64::MAX));
}

#[test]
fn settlement_native_without_referral() {
    let s = calc_settlement(&config(), 10_000, false, FeePaymentMethod::Native).unwrap();
    assert_eq!(
        s,
        Settlement { lock_amount: 9_900, lp_fee_amount: 100, referral_share_fee: 0, secondary_token_burn_amount: 0, dev_fee: 1_000_000 }
    );
}

#[test]
fn settlement_native_with_referral() {
    let s = calc_settlement(&config(), 10_000, true, FeePaymentMethod::Native).unwrap();
    assert_eq!(
        s,
        Settlement { lock_amount: 9_900, lp_fee_amount: 100, referral_share_fee: 90_000, secondary_token_burn_amount: 0, dev_fee: 810_000 }
    );
}

#[test]
fn settlement_native_with_referral_fractional() {
    let mut cfg = config();
    cfg.native_fee = 1001;
    let s = calc_settlement(&cfg, 10_000, true, FeePaymentMethod::Native).unwrap();
    // 1001 * 90 % = 900.9; share 10 % = 90.09 (floored on settlement); dev = ceil(810.81) = 811
    assert_eq!(s.referral_share_fee, 90);
    assert_eq!(s.dev_fee, 811);
    assert!(s.dev_fee + s.referral_share_fee <= cfg.native_fee);
}

#[test]
fn settlement_non_native_without_referral() {
    let s = calc_settlement(&config(), 10_000, false, FeePaymentMethod::NonNative).unwrap();
    assert_eq!(
        s,
        Settlement { lock_amount: 9_920, lp_fee_amount: 80, referral_share_fee: 0, secondary_token_burn_amount: 500, dev_fee: 0 }
    );
}

#[test]
fn settlement_non_native_with_referral() {
    let s = calc_settlement(&config(), 10_000, true, FeePaymentMethod::NonNative).unwrap();
    assert_eq!(
        s,
        Settlement { lock_amount: 9_920, lp_fee_amount: 80, referral_share_fee: 45, secondary_token_burn_amount: 405, dev_fee: 0 }
    );
}

#[test]
fn settlement_whitelisted_pays_only_liquidity_fee() {
    for referral in [false, true] {
        let s = calc_settlement(&config(), 333, referral, FeePaymentMethod::Whitelisted).unwrap();
        assert_eq!(
            s,
            Settlement { lock_amount: 329, lp_fee_amount: 4, referral_share_fee: 0, secondary_token_burn_amount: 0, dev_fee: 0 }
        );
    }
}

#[test]
fn settlement_lock_plus_fee_is_amount() {
    for amount in [1u64, 7, 333, 10_000, 123_456_789, u64::MAX] {
        for method in [FeePaymentMethod::Native, FeePaymentMethod::NonNative, FeePaymentMethod::Whitelisted] {
            for referral in [false, true] {
                let s = calc_settlement(&config(), amount, referral, method).unwrap();
                assert_eq!(s.lock_amount + s.lp_fee_amount, amount);
            }
        }
    }
}

#[test]
fn settlement_full_liquidity_fee() {
    let mut cfg = config();
    cfg.liquidity_fee_bps = 10000;
    let s = calc_settlement(&cfg, 77, false, FeePaymentMethod::Whitelisted).unwrap();
    assert_eq!(s.lp_fee_amount, 77);
    assert_eq!(s.lock_amount, 0);
}

#[test]
fn fee_ceil_is_a_whole_unit_within_one_of_the_fee() {
    for &(amount, bps) in &[(1 * ONE, 1u16), (7 * ONE + 3, 333), (u64::MAX as i128 * ONE, 10000), (ONE / 3, 9999), (0, 5000)] {
        let q = calc_fee(amount, bps).unwrap();
        let r = calc_fee_ceil(amount, bps).unwrap();
        assert_eq!(r % ONE, 0);
        assert!(q <= r && r < q + ONE);
        assert!(r <= (amount + ONE - 1) / ONE * ONE);
    }
    // the full fee on the largest amount is the amount itself
    assert_eq!(calc_fee_ceil(u64::MAX as i128 * ONE, 10000), Ok(u64::MAX as i128 * ONE));
}

#[test]
fn fee_ceil_grows_with_the_amount() {
    let mut last = 0;
    for units in 0..200i128 {
        let r = calc_fee_ceil(units * ONE, 125).unwrap();
        assert!(r >= last);
        last = r;
    }
    assert_eq!(last, 3 * ONE); // ceil(199 * 1.25 %) = 3
}
