use uncx_lp_locker::error::{LockerError, RaydiumAmmError};
use uncx_lp_locker::pubkey::Pubkey;
use uncx_lp_locker::raydium_port::calc_reserves::{actual_reserves_in_range, calc_actual_reserves};
use uncx_lp_locker::raydium_port::state::{
    check_raydium_amm_id, raydium_amm_id, AmmInfo, AmmStatus, TargetOrders, AMM_INFO_SIZE, TARGET_ORDERS_SIZE,
};

fn put_u64(d: &mut [u8], off: usize, v: u64) {
    d[off..off + 8].copy_from_slice(&v.to_le_bytes());
}

fn put_u128(d: &mut [u8], off: usize, v: u128) {
    d[off..off + 16].copy_from_slice(&v.to_le_bytes());
}

fn put_key(d: &mut [u8], off: usize, k: u8) {
    d[off..off + 32].copy_from_slice(&[k; 32]);
}

fn amm_bytes(status: u64) -> Vec<u8> {
    let mut d = vec![0u8; AMM_INFO_SIZE];
    put_u64(&mut d, 0, status);
    put_u64(&mut d, 32, 6); // coin decimals
    put_u64(&mut d, 40, 9); // pc decimals
    put_u64(&mut d, 120, 1_000_000_000); // sys decimal value
    put_u64(&mut d, 160, 12); // pnl numerator
    put_u64(&mut d, 168, 100); // pnl denominator
    put_u64(&mut d, 192, 5); // need take pnl coin
    put_u64(&mut d, 200, 7); // need take pnl pc
    put_key(&mut d, 336, 1); // coin vault
    put_key(&mut d, 368, 2); // pc vault
    put_key(&mut d, 400, 3); // coin mint
    put_key(&mut d, 432, 4); // pc mint
    put_key(&mut d, 464, 5); // lp mint
    put_key(&mut d, 592, 6); // target orders
    put_u64(&mut d, 720, 424_242); // lp amount
    d
}

#[test]
fn get_amm_info_type_information() {
    assert_eq!(AMM_INFO_SIZE, 752);
    assert_eq!(TARGET_ORDERS_SIZE, 2208);
}

#[test]
fn amm_info_decodes_fields() {
    let d = amm_bytes(6);
    let info = AmmInfo::load(&d);
    assert_eq!(info.status, 6);
    assert_eq!(info.coin_decimals, 6);
    assert_eq!(info.pc_decimals, 9);
    assert_eq!(info.sys_decimal_value, 1_000_000_000);
    assert_eq!(info.state_data.need_take_pnl_pc, 7);
    assert_eq!(info.coin_vault, Pubkey::new_from_array([1; 32]));
    assert_eq!(info.pc_vault_mint, Pubkey::new_from_array([4; 32]));
    assert_eq!(info.lp_mint, Pubkey::new_from_array([5; 32]));
    assert_eq!(info.target_orders, Pubkey::new_from_array([6; 32]));
    assert_eq!(info.lp_amount, 424_242);
}

#[test]
fn amm_info_load_checked_errors() {
    let d = amm_bytes(6);
    let other = Pubkey::new_from_array([9; 32]);
    assert_eq!(
        AmmInfo::load_checked(&other, &d).unwrap_err(),
        LockerError::Raydium(RaydiumAmmError::InvalidAmmAccountOwner)
    );
    let id = raydium_amm_id();
    assert_eq!(
        AmmInfo::load_checked(&id, &d[..700]).unwrap_err(),
        LockerError::Raydium(RaydiumAmmError::ExpectedAccount)
    );
    let uninit = amm_bytes(0);
    assert_eq!(
        AmmInfo::load_checked(&id, &uninit).unwrap_err(),
        LockerError::Raydium(RaydiumAmmError::InvalidStatus)
    );
    assert_eq!(AmmInfo::load_checked(&id, &d).unwrap().lp_mint, Pubkey::new_from_array([5; 32]));
}

#[test]
fn raydium_program_id() {
    let id = raydium_amm_id();
    assert!(check_raydium_amm_id(&id));
    assert!(!check_raydium_amm_id(&Pubkey::new_from_array([0; 32])));
    assert_eq!(id.to_bytes()[0], 75);
}

#[test]
fn amm_status_codes() {
    for code in 0u64..8 {
        assert_eq!(AmmStatus::from_u64(code).into_u64(), code);
    }
    assert!(AmmStatus::valid_status(7));
    assert!(!AmmStatus::valid_status(8));
    assert!(AmmStatus::from_u64(1).orderbook_permission());
    assert!(!AmmStatus::from_u64(6).orderbook_permission());
}

#[test]
fn reserves_of_withdraw_only_pool_are_vaults_net_of_pending_pnl() {
    let info = AmmInfo::load(&amm_bytes(3));
    let target = TargetOrders::load_unchecked(&vec![0u8; TARGET_ORDERS_SIZE]);
    assert_eq!(calc_actual_reserves(&info, &target, 1_000, 2_000), Ok((424_242, 993, 1_995)));
    assert_eq!(
        calc_actual_reserves(&info, &target, 6, 2_000),
        Err(LockerError::Raydium(RaydiumAmmError::CheckedSubOverflow))
    );
}

#[test]
fn reserves_without_growth_take_no_pnl() {
    let info = AmmInfo::load(&amm_bytes(6));
    let mut t = vec![0u8; TARGET_ORDERS_SIZE];
    // pool totals: pc 1_000_000_000 - 7, coin 2_000_000 - 5; settled at exactly these totals
    let pc = 1_000_000_000u64 - 7;
    let coin = 2_000_000u64 - 5;
    // normalized: x1 = pc * 1e9 / 1e9 = pc, y1 = coin * 1e9 / 1e6 = coin * 1000
    put_u128(&mut t, 1024, pc as u128);
    put_u128(&mut t, 1040, coin as u128 * 1000);
    let target = TargetOrders::load_unchecked(&t);
    assert_eq!(calc_actual_reserves(&info, &target, 1_000_000_000, 2_000_000), Ok((424_242, pc, coin)));
}

#[test]
fn reserves_with_shrunk_product_is_an_error() {
    let info = AmmInfo::load(&amm_bytes(6));
    let mut t = vec![0u8; TARGET_ORDERS_SIZE];
    put_u128(&mut t, 1024, 2_000_000_000);
    put_u128(&mut t, 1040, 4_000_000_000);
    let target = TargetOrders::load_unchecked(&t);
    assert_eq!(
        calc_actual_reserves(&info, &target, 1_000_000_000, 2_000_000),
        Err(LockerError::Raydium(RaydiumAmmError::CalcPnlError))
    );
}

#[test]
fn reserves_with_growth_take_the_pool_share() {
    let info = AmmInfo::load(&amm_bytes(6));
    let mut t = vec![0u8; TARGET_ORDERS_SIZE];
    // settled product a quarter of the current one: x2 = x1 / 2, y2 = y1 / 2
    let pc = 1_000_000_000u64 - 7; // 999_999_993
    let coin = 2_000_000u64 - 5; // 1_999_995
    put_u128(&mut t, 1024, pc as u128 / 2);
    put_u128(&mut t, 1040, coin as u128 * 1000 / 2);
    let target = TargetOrders::load_unchecked(&t);
    let (lp, true_pc, true_coin) = calc_actual_reserves(&info, &target, 1_000_000_000, 2_000_000).unwrap();
    assert_eq!(lp, 424_242);
    assert!(true_pc < pc && true_coin < coin);
    // the pool keeps 12 % of the growth
    assert!(pc - true_pc <= pc / 2 * 12 / 100 + 1);
    assert!(pc - true_pc >= pc / 2 * 12 / 100 - 1);
}

#[test]
fn pack_gives_back_the_account_bytes() {
    let d = amm_bytes(6);
    let info = AmmInfo::load(&d);
    assert_eq!(info.pack(), d);
    let mut out = vec![0xffu8; AMM_INFO_SIZE];
    info.pack_into_slice(&mut out);
    assert_eq!(out, d);
}

#[test]
fn unpack_needs_more_than_a_pool() {
    let mut d = amm_bytes(6);
    assert_eq!(AmmInfo::unpack_from_slice(&d).unwrap_err(), LockerError::Raydium(RaydiumAmmError::InvalidState));
    d.push(0);
    let info = AmmInfo::unpack_from_slice(&d).unwrap();
    assert_eq!(info.lp_amount, 424_242);
    assert_eq!(info.pack(), d[..AMM_INFO_SIZE].to_vec());
}

#[test]
fn reserve_arithmetic_in_range_for_ordinary_pools() {
    let info = AmmInfo::load(&amm_bytes(6));
    let mut t = vec![0u8; TARGET_ORDERS_SIZE];
    let pc = 1_000_000_000u64 - 7;
    let coin = 2_000_000u64 - 5;
    put_u128(&mut t, 1024, pc as u128 / 2);
    put_u128(&mut t, 1040, coin as u128 * 1000 / 2);
    let target = TargetOrders::load_unchecked(&t);
    assert!(actual_reserves_in_range(&info, &target, 1_000_000_000, 2_000_000));
    // vaults below what is still to be taken: an error, not an overflow
    assert!(actual_reserves_in_range(&info, &target, 6, 2_000_000));
    // a withdraw-only pool takes no profit and loss
    let withdraw_only = AmmInfo::load(&amm_bytes(3));
    assert!(actual_reserves_in_range(&withdraw_only, &TargetOrders::load_unchecked(&vec![0u8; TARGET_ORDERS_SIZE]), 1_000, 2_000));
}

#[test]
fn reserve_arithmetic_out_of_range() {
    // a zero pnl denominator cannot be divided by
    let mut d = amm_bytes(6);
    put_u64(&mut d, 168, 0);
    let info = AmmInfo::load(&d);
    let mut t = vec![0u8; TARGET_ORDERS_SIZE];
    put_u128(&mut t, 1024, 1);
    put_u128(&mut t, 1040, 1);
    let target = TargetOrders::load_unchecked(&t);
    assert!(!actual_reserves_in_range(&info, &target, 1_000_000_000, 2_000_000));
    // a zero system decimal value cannot restore decimals
    let mut d = amm_bytes(6);
    put_u64(&mut d, 120, 0);
    let info = AmmInfo::load(&d);
    assert!(!actual_reserves_in_range(&info, &target, 1_000_000_000, 2_000_000));
    // 10^40 does not fit 128 bits
    let mut d = amm_bytes(3);
    put_u64(&mut d, 40, 40);
    let info = AmmInfo::load(&d);
    assert!(!actual_reserves_in_range(&info, &target, 1_000_000_000, 2_000_000));
}
