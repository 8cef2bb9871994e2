//! The Raydium AMM v4 accounts the locker reads, decoded from their raw data.
use vstd::prelude::*;
use crate::error::{LockerError, RaydiumAmmError};
use crate::le_bytes::{le_u128_at, le_u64_at, pubkey_at, read_pubkey, read_u128, read_u64, read_u64s, u64s_at};
use crate::pubkey::Pubkey;

verus! {

/// Upper bound on orders per side.
pub const MAX_ORDER_LIMIT: usize = 10;

/// Size in bytes of an AMM pool account.
pub const AMM_INFO_SIZE: usize = 752;

/// Size in bytes of a target-orders account.
pub const TARGET_ORDERS_SIZE: usize = 2208;

/// The address of the Raydium AMM program.
pub open spec fn is_raydium_amm_id(k: Pubkey) -> bool {
    k.bytes@ == seq![75u8, 217u8, 73u8, 196u8, 54u8, 2u8, 195u8, 63u8, 32u8, 119u8, 144u8, 237u8, 22u8, 163u8, 82u8, 76u8, 161u8, 185u8, 151u8, 92u8, 241u8, 33u8, 162u8, 169u8, 12u8, 255u8, 236u8, 125u8, 248u8, 182u8, 138u8, 205u8]
}

/// The address of the Raydium AMM program.
pub fn raydium_amm_id() -> (r: Pubkey)
    ensures
        is_raydium_amm_id(r),
{
    let r = Pubkey { bytes: [75, 217, 73, 196, 54, 2, 195, 63, 32, 119, 144, 237, 22, 163, 82, 76, 161, 185, 151, 92, 241, 33, 162, 169, 12, 255, 236, 125, 248, 182, 138, 205] };
    assert(r.bytes@ =~= seq![75u8, 217u8, 73u8, 196u8, 54u8, 2u8, 195u8, 63u8, 32u8, 119u8, 144u8, 237u8, 22u8, 163u8, 82u8, 76u8, 161u8, 185u8, 151u8, 92u8, 241u8, 33u8, 162u8, 169u8, 12u8, 255u8, 236u8, 125u8, 248u8, 182u8, 138u8, 205u8]);
    r
}

/// Whether an address is the Raydium AMM program's.
pub fn check_raydium_amm_id(k: &Pubkey) -> (r: bool)
    ensures
        r == is_raydium_amm_id(*k),
{
    let id = raydium_amm_id();
    let r = k.key_eq(&id);
    proof {
        if is_raydium_amm_id(*k) {
            broadcast use vstd::array::group_array_axioms;
            assert(k.bytes =~= id.bytes);
        }
    }
    r
}

/// One order of the AMM's order book plan.
#[derive(Clone, Copy, Debug, PartialEq, Eq)]
pub struct TargetOrder {
    pub price: u64,
    pub vol: u64,
}

/// The AMM's target orders, which carry the reserves at the last profit-and-loss settlement.
#[derive(Clone, Copy, Debug, PartialEq, Eq)]
pub struct TargetOrders {
    pub owner: [u64; 4],
    pub buy_orders: [TargetOrder; 50],
    pub padding1: [u64; 8],
    pub target_x: u128,
    pub target_y: u128,
    pub plan_x_buy: u128,
    pub plan_y_buy: u128,
    pub plan_x_sell: u128,
    pub plan_y_sell: u128,
    pub placed_x: u128,
    pub placed_y: u128,
    pub calc_pnl_x: u128,
    pub calc_pnl_y: u128,
    pub sell_orders: [TargetOrder; 50],
    pub padding2: [u64; 6],
    pub replace_buy_client_id: [u64; 10],
    pub replace_sell_client_id: [u64; 10],
    pub last_order_numerator: u64,
    pub last_order_denominator: u64,
    pub plan_orders_cur: u64,
    pub place_orders_cur: u64,
    pub valid_buy_order_num: u64,
    pub valid_sell_order_num: u64,
    pub padding3: [u64; 10],
    pub free_slot_bits: u128,
}

/// The AMM's status codes.
#[derive(Clone, Copy, Debug, PartialEq, Eq, Structural)]
pub enum AmmStatus {
    Uninitialized,
    Initialized,
    Disabled,
    WithdrawOnly,
    /// pool only can add or remove liquidity, can't swap and plan orders
    LiquidityOnly,
    /// pool only can add or remove liquidity and plan orders, can't swap
    OrderBookOnly,
    /// pool only can add or remove liquidity and swap, can't plan orders
    SwapOnly,
    /// pool status after created and will auto update to SwapOnly during swap after open_time
    WaitingTrade,
}

/// The status code of a status.
pub open spec fn spec_status_code(s: AmmStatus) -> u64 {
    match s {
        AmmStatus::Uninitialized => 0,
        AmmStatus::Initialized => 1,
        AmmStatus::Disabled => 2,
        AmmStatus::WithdrawOnly => 3,
        AmmStatus::LiquidityOnly => 4,
        AmmStatus::OrderBookOnly => 5,
        AmmStatus::SwapOnly => 6,
        AmmStatus::WaitingTrade => 7,
    }
}

impl AmmStatus {
    /// The status with the given code.
    pub fn from_u64(status: u64) -> (r: AmmStatus)
        requires
            status <= 7,
        ensures
            spec_status_code(r) == status,
    {
        match status {
            0u64 => AmmStatus::Uninitialized,
            1u64 => AmmStatus::Initialized,
            2u64 => AmmStatus::Disabled,
            3u64 => AmmStatus::WithdrawOnly,
            4u64 => AmmStatus::LiquidityOnly,
            5u64 => AmmStatus::OrderBookOnly,
            6u64 => AmmStatus::SwapOnly,
            _ => AmmStatus::WaitingTrade,
        }
    }

    /// The code of the status.
    pub fn into_u64(&self) -> (r: u64)
        ensures
            r == spec_status_code(*self),
    {
        match self {
            AmmStatus::Uninitialized => 0u64,
            AmmStatus::Initialized => 1u64,
            AmmStatus::Disabled => 2u64,
            AmmStatus::WithdrawOnly => 3u64,
            AmmStatus::LiquidityOnly => 4u64,
            AmmStatus::OrderBookOnly => 5u64,
            AmmStatus::SwapOnly => 6u64,
            AmmStatus::WaitingTrade => 7u64,
        }
    }

    /// A status code of an initialized pool.
    pub fn valid_status(status: u64) -> (r: bool)
        ensures
            r == (1 <= status <= 7),
    {
        match status {
            1u64..=7u64 => true,
            _ => false,
        }
    }

    /// Whether the pool may plan orders on the order book.
    pub fn orderbook_permission(&self) -> (r: bool)
        ensures
            r == (*self == AmmStatus::Initialized || *self == AmmStatus::OrderBookOnly),
    {
        match self {
            AmmStatus::Uninitialized => false,
            AmmStatus::Initialized => true,
            AmmStatus::Disabled => false,
            AmmStatus::WithdrawOnly => false,
            AmmStatus::LiquidityOnly => false,
            AmmStatus::OrderBookOnly => true,
            AmmStatus::SwapOnly => false,
            AmmStatus::WaitingTrade => false,
        }
    }
}

/// Converting a status code to a status and back gives the code.
pub proof fn lemma_status_code_round_trip(status: u64)
    requires
        status <= 7,
    ensures
        exists|s: AmmStatus| spec_status_code(s) == status,
        forall|s: AmmStatus, t: AmmStatus| spec_status_code(s) == spec_status_code(t) ==> s == t,
{
    let s = if status == 0 {
        AmmStatus::Uninitialized
    } else if status == 1 {
        AmmStatus::Initialized
    } else if status == 2 {
        AmmStatus::Disabled
    } else if status == 3 {
        AmmStatus::WithdrawOnly
    } else if status == 4 {
        AmmStatus::LiquidityOnly
    } else if status == 5 {
        AmmStatus::OrderBookOnly
    } else if status == 6 {
        AmmStatus::SwapOnly
    } else {
        AmmStatus::WaitingTrade
    };
    assert(spec_status_code(s) == status);
}

/// The pool's fee parameters.
#[derive(Clone, Copy, Debug, PartialEq, Eq, Structural)]
pub struct Fees {
    pub min_separate_numerator: u64,
    pub min_separate_denominator: u64,
    pub trade_fee_numerator: u64,
    pub trade_fee_denominator: u64,
    pub pnl_numerator: u64,
    pub pnl_denominator: u64,
    pub swap_fee_numerator: u64,
    pub swap_fee_denominator: u64,
}

/// The pool's running statistics.
#[derive(Clone, Copy, Debug, PartialEq, Eq)]
pub struct StateData {
    pub need_take_pnl_coin: u64,
    pub need_take_pnl_pc: u64,
    pub total_pnl_pc: u64,
    pub total_pnl_coin: u64,
    pub pool_open_time: u64,
    pub padding: [u64; 2],
    pub orderbook_to_init_time: u64,
    pub swap_coin_in_amount: u128,
    pub swap_pc_out_amount: u128,
    pub swap_acc_pc_fee: u64,
    pub swap_pc_in_amount: u128,
    pub swap_coin_out_amount: u128,
    pub swap_acc_coin_fee: u64,
}

/// A Raydium AMM v4 pool.
#[derive(Clone, Copy, Debug, PartialEq, Eq)]
pub struct AmmInfo {
    pub status: u64,
    pub nonce: u64,
    pub order_num: u64,
    pub depth: u64,
    pub coin_decimals: u64,
    pub pc_decimals: u64,
    pub state: u64,
    pub reset_flag: u64,
    pub min_size: u64,
    pub vol_max_cut_ratio: u64,
    pub amount_wave: u64,
    pub coin_lot_size: u64,
    pub pc_lot_size: u64,
    pub min_price_multiplier: u64,
    pub max_price_multiplier: u64,
    pub sys_decimal_value: u64,
    pub fees: Fees,
    pub state_data: StateData,
    pub coin_vault: Pubkey,
    pub pc_vault: Pubkey,
    pub coin_vault_mint: Pubkey,
    pub pc_vault_mint: Pubkey,
    pub lp_mint: Pubkey,
    pub open_orders: Pubkey,
    pub market: Pubkey,
    pub market_program: Pubkey,
    pub target_orders: Pubkey,
    pub padding1: [u64; 8],
    pub amm_owner: Pubkey,
    pub lp_amount: u64,
    pub client_order_id: u64,
    pub padding2: [u64; 2],
}

/// `orders` are the 50 orders stored from byte offset `off`.
pub open spec fn orders_at(d: Seq<u8>, off: int, orders: [TargetOrder; 50]) -> bool {
    forall|i: int|
        0 <= i < 50 ==> (#[trigger] orders@[i]).price == le_u64_at(d, off + 16 * i) && orders@[i].vol
            == le_u64_at(d, off + 16 * i + 8)
}

/// `info` is the pool whose raw account data is `d`.
pub open spec fn amm_info_decodes(d: Seq<u8>, info: AmmInfo) -> bool {
    &&& info.status == le_u64_at(d, 0)
    &&& info.nonce == le_u64_at(d, 8)
    &&& info.order_num == le_u64_at(d, 16)
    &&& info.depth == le_u64_at(d, 24)
    &&& info.coin_decimals == le_u64_at(d, 32)
    &&& info.pc_decimals == le_u64_at(d, 40)
    &&& info.state == le_u64_at(d, 48)
    &&& info.reset_flag == le_u64_at(d, 56)
    &&& info.min_size == le_u64_at(d, 64)
    &&& info.vol_max_cut_ratio == le_u64_at(d, 72)
    &&& info.amount_wave == le_u64_at(d, 80)
    &&& info.coin_lot_size == le_u64_at(d, 88)
    &&& info.pc_lot_size == le_u64_at(d, 96)
    &&& info.min_price_multiplier == le_u64_at(d, 104)
    &&& info.max_price_multiplier == le_u64_at(d, 112)
    &&& info.sys_decimal_value == le_u64_at(d, 120)
    &&& info.fees.min_separate_numerator == le_u64_at(d, 128)
    &&& info.fees.min_separate_denominator == le_u64_at(d, 136)
    &&& info.fees.trade_fee_numerator == le_u64_at(d, 144)
    &&& info.fees.trade_fee_denominator == le_u64_at(d, 152)
    &&& info.fees.pnl_numerator == le_u64_at(d, 160)
    &&& info.fees.pnl_denominator == le_u64_at(d, 168)
    &&& info.fees.swap_fee_numerator == le_u64_at(d, 176)
    &&& info.fees.swap_fee_denominator == le_u64_at(d, 184)
    &&& info.state_data.need_take_pnl_coin == le_u64_at(d, 192)
    &&& info.state_data.need_take_pnl_pc == le_u64_at(d, 200)
    &&& info.state_data.total_pnl_pc == le_u64_at(d, 208)
    &&& info.state_data.total_pnl_coin == le_u64_at(d, 216)
    &&& info.state_data.pool_open_time == le_u64_at(d, 224)
    &&& u64s_at(d, 232, info.state_data.padding)
    &&& info.state_data.orderbook_to_init_time == le_u64_at(d, 248)
    &&& info.state_data.swap_coin_in_amount == le_u128_at(d, 256)
    &&& info.state_data.swap_pc_out_amount == le_u128_at(d, 272)
    &&& info.state_data.swap_acc_pc_fee == le_u64_at(d, 288)
    &&& info.state_data.swap_pc_in_amount == le_u128_at(d, 296)
    &&& info.state_data.swap_coin_out_amount == le_u128_at(d, 312)
    &&& info.state_data.swap_acc_coin_fee == le_u64_at(d, 328)
    &&& pubkey_at(d, 336, info.coin_vault)
    &&& pubkey_at(d, 368, info.pc_vault)
    &&& pubkey_at(d, 400, info.coin_vault_mint)
    &&& pubkey_at(d, 432, info.pc_vault_mint)
    &&& pubkey_at(d, 464, info.lp_mint)
    &&& pubkey_at(d, 496, info.open_orders)
    &&& pubkey_at(d, 528, info.market)
    &&& pubkey_at(d, 560, info.market_program)
    &&& pubkey_at(d, 592, info.target_orders)
    &&& u64s_at(d, 624, info.padding1)
    &&& pubkey_at(d, 688, info.amm_owner)
    &&& info.lp_amount == le_u64_at(d, 720)
    &&& info.client_order_id == le_u64_at(d, 728)
    &&& u64s_at(d, 736, info.padding2)
}

/// `t` is the target-orders account whose raw data is `d`.
pub open spec fn target_orders_decodes(d: Seq<u8>, t: TargetOrders) -> bool {
    &&& u64s_at(d, 0, t.owner)
    &&& orders_at(d, 32, t.buy_orders)
    &&& u64s_at(d, 832, t.padding1)
    &&& t.target_x == le_u128_at(d, 896)
    &&& t.target_y == le_u128_at(d, 912)
    &&& t.plan_x_buy == le_u128_at(d, 928)
    &&& t.plan_y_buy == le_u128_at(d, 944)
    &&& t.plan_x_sell == le_u128_at(d, 960)
    &&& t.plan_y_sell == le_u128_at(d, 976)
    &&& t.placed_x == le_u128_at(d, 992)
    &&& t.placed_y == le_u128_at(d, 1008)
    &&& t.calc_pnl_x == le_u128_at(d, 1024)
    &&& t.calc_pnl_y == le_u128_at(d, 1040)
    &&& orders_at(d, 1056, t.sell_orders)
    &&& u64s_at(d, 1856, t.padding2)
    &&& u64s_at(d, 1904, t.replace_buy_client_id)
    &&& u64s_at(d, 1984, t.replace_sell_client_id)
    &&& t.last_order_numerator == le_u64_at(d, 2064)
    &&& t.last_order_denominator == le_u64_at(d, 2072)
    &&& t.plan_orders_cur == le_u64_at(d, 2080)
    &&& t.place_orders_cur == le_u64_at(d, 2088)
    &&& t.valid_buy_order_num == le_u64_at(d, 2096)
    &&& t.valid_sell_order_num == le_u64_at(d, 2104)
    &&& u64s_at(d, 2112, t.padding3)
    &&& t.free_slot_bits == le_u128_at(d, 2192)
}

/// The pool whose raw account data is `d` (meaningful when `d` has the pool's size).
pub open spec fn spec_amm_info(d: Seq<u8>) -> AmmInfo {
    choose|info: AmmInfo| amm_info_decodes(d, info)
}

/// The target-orders account whose raw data is `d` (meaningful when `d` has the account's size).
pub open spec fn spec_target_orders(d: Seq<u8>) -> TargetOrders {
    choose|t: TargetOrders| target_orders_decodes(d, t)
}

proof fn lemma_same_pubkey(a: Pubkey, b: Pubkey)
    requires
        a.bytes@ == b.bytes@,
    ensures
        a == b,
{
    assert(a.bytes =~= b.bytes);
}

proof fn lemma_same_words<const N: usize>(d: Seq<u8>, off: int, a: [u64; N], b: [u64; N])
    requires
        u64s_at(d, off, a),
        u64s_at(d, off, b),
    ensures
        a == b,
{
    assert forall|i: int| 0 <= i < N implies a@[i] == b@[i] by {
        assert(a@[i] == le_u64_at(d, off + 8 * i));
    }
    assert(a =~= b);
}

proof fn lemma_same_orders(d: Seq<u8>, off: int, a: [TargetOrder; 50], b: [TargetOrder; 50])
    requires
        orders_at(d, off, a),
        orders_at(d, off, b),
    ensures
        a == b,
{
    assert forall|i: int| 0 <= i < 50 implies a@[i] == b@[i] by {
        assert(a@[i].price == le_u64_at(d, off + 16 * i));
        assert(b@[i].price == le_u64_at(d, off + 16 * i));
    }
    assert(a =~= b);
}

/// Decoding a pool is a function of its data: `spec_amm_info` names the decoded pool.
pub proof fn lemma_amm_info_decoding_unique(d: Seq<u8>, info: AmmInfo)
    requires
        amm_info_decodes(d, info),
    ensures
        spec_amm_info(d) == info,
{
    let c = spec_amm_info(d);
    assert(amm_info_decodes(d, c));
    lemma_same_words(d, 232, c.state_data.padding, info.state_data.padding);
    lemma_same_words(d, 624, c.padding1, info.padding1);
    lemma_same_words(d, 736, c.padding2, info.padding2);
    lemma_same_pubkey(c.coin_vault, info.coin_vault);
    lemma_same_pubkey(c.pc_vault, info.pc_vault);
    lemma_same_pubkey(c.coin_vault_mint, info.coin_vault_mint);
    lemma_same_pubkey(c.pc_vault_mint, info.pc_vault_mint);
    lemma_same_pubkey(c.lp_mint, info.lp_mint);
    lemma_same_pubkey(c.open_orders, info.open_orders);
    lemma_same_pubkey(c.market, info.market);
    lemma_same_pubkey(c.market_program, info.market_program);
    lemma_same_pubkey(c.target_orders, info.target_orders);
    lemma_same_pubkey(c.amm_owner, info.amm_owner);
}

/// Decoding a target-orders account is a function of its data: `spec_target_orders` names it.
pub proof fn lemma_target_orders_decoding_unique(d: Seq<u8>, t: TargetOrders)
    requires
        target_orders_decodes(d, t),
    ensures
        spec_target_orders(d) == t,
{
    let c = spec_target_orders(d);
    assert(target_orders_decodes(d, c));
    lemma_same_words(d, 0, c.owner, t.owner);
    lemma_same_orders(d, 32, c.buy_orders, t.buy_orders);
    lemma_same_words(d, 832, c.padding1, t.padding1);
    lemma_same_orders(d, 1056, c.sell_orders, t.sell_orders);
    lemma_same_words(d, 1856, c.padding2, t.padding2);
    lemma_same_words(d, 1904, c.replace_buy_client_id, t.replace_buy_client_id);
    lemma_same_words(d, 1984, c.replace_sell_client_id, t.replace_sell_client_id);
    lemma_same_words(d, 2112, c.padding3, t.padding3);
}

fn read_orders(data: &[u8], off: usize) -> (r: [TargetOrder; 50])
    requires
        off + 800 <= data@.len(),
    ensures
        orders_at(data@, off as int, r),
{
    let n = data.len();
    let mut a: [TargetOrder; 50] = [TargetOrder { price: 0, vol: 0 }; 50];
    let mut i: usize = 0;
    while i < 50
        invariant
            0 <= i <= 50,
            off + 800 <= data@.len(),
            n == data@.len(),
            forall|j: int|
                0 <= j < i ==> (#[trigger] a@[j]).price == le_u64_at(data@, off + 16 * j) && a@[j].vol
                    == le_u64_at(data@, off + 16 * j + 8),
        decreases 50 - i,
    {
        let price = read_u64(data, off + 16 * i);
        let vol = read_u64(data, off + 16 * i + 8);
        a[i] = TargetOrder { price, vol };
        i = i + 1;
    }
    a
}

impl TargetOrders {
    /// Decodes a target-orders account. Its owner and identity are not checked: the caller
    /// takes its address from the pool.
    pub fn load_unchecked(data: &[u8]) -> (r: TargetOrders)
        requires
            data@.len() == TARGET_ORDERS_SIZE,
        ensures
            target_orders_decodes(data@, r),
            r == spec_target_orders(data@),
    {
        let r = TargetOrders {
            owner: read_u64s::<4>(data, 0),
            buy_orders: read_orders(data, 32),
            padding1: read_u64s::<8>(data, 832),
            target_x: read_u128(data, 896),
            target_y: read_u128(data, 912),
            plan_x_buy: read_u128(data, 928),
            plan_y_buy: read_u128(data, 944),
            plan_x_sell: read_u128(data, 960),
            plan_y_sell: read_u128(data, 976),
            placed_x: read_u128(data, 992),
            placed_y: read_u128(data, 1008),
            calc_pnl_x: read_u128(data, 1024),
            calc_pnl_y: read_u128(data, 1040),
            sell_orders: read_orders(data, 1056),
            padding2: read_u64s::<6>(data, 1856),
            replace_buy_client_id: read_u64s::<10>(data, 1904),
            replace_sell_client_id: read_u64s::<10>(data, 1984),
            last_order_numerator: read_u64(data, 2064),
            last_order_denominator: read_u64(data, 2072),
            plan_orders_cur: read_u64(data, 2080),
            place_orders_cur: read_u64(data, 2088),
            valid_buy_order_num: read_u64(data, 2096),
            valid_sell_order_num: read_u64(data, 2104),
            padding3: read_u64s::<10>(data, 2112),
            free_slot_bits: read_u128(data, 2192),
        };
        proof {
            lemma_target_orders_decoding_unique(data@, r);
        }
        r
    }
}

impl AmmInfo {
    /// Decodes a pool account without checking it.
    pub fn load(data: &[u8]) -> (r: AmmInfo)
        requires
            data@.len() == AMM_INFO_SIZE,
        ensures
            amm_info_decodes(data@, r),
            r == spec_amm_info(data@),
    {
        let r = AmmInfo {
            status: read_u64(data, 0),
            nonce: read_u64(data, 8),
            order_num: read_u64(data, 16),
            depth: read_u64(data, 24),
            coin_decimals: read_u64(data, 32),
            pc_decimals: read_u64(data, 40),
            state: read_u64(data, 48),
            reset_flag: read_u64(data, 56),
            min_size: read_u64(data, 64),
            vol_max_cut_ratio: read_u64(data, 72),
            amount_wave: read_u64(data, 80),
            coin_lot_size: read_u64(data, 88),
            pc_lot_size: read_u64(data, 96),
            min_price_multiplier: read_u64(data, 104),
            max_price_multiplier: read_u64(data, 112),
            sys_decimal_value: read_u64(data, 120),
            fees: Fees {
                min_separate_numerator: read_u64(data, 128),
                min_separate_denominator: read_u64(data, 136),
                trade_fee_numerator: read_u64(data, 144),
                trade_fee_denominator: read_u64(data, 152),
                pnl_numerator: read_u64(data, 160),
                pnl_denominator: read_u64(data, 168),
                swap_fee_numerator: read_u64(data, 176),
                swap_fee_denominator: read_u64(data, 184),
            },
            state_data: StateData {
                need_take_pnl_coin: read_u64(data, 192),
                need_take_pnl_pc: read_u64(data, 200),
                total_pnl_pc: read_u64(data, 208),
                total_pnl_coin: read_u64(data, 216),
                pool_open_time: read_u64(data, 224),
                padding: read_u64s::<2>(data, 232),
                orderbook_to_init_time: read_u64(data, 248),
                swap_coin_in_amount: read_u128(data, 256),
                swap_pc_out_amount: read_u128(data, 272),
                swap_acc_pc_fee: read_u64(data, 288),
                swap_pc_in_amount: read_u128(data, 296),
                swap_coin_out_amount: read_u128(data, 312),
                swap_acc_coin_fee: read_u64(data, 328),
            },
            coin_vault: read_pubkey(data, 336),
            pc_vault: read_pubkey(data, 368),
            coin_vault_mint: read_pubkey(data, 400),
            pc_vault_mint: read_pubkey(data, 432),
            lp_mint: read_pubkey(data, 464),
            open_orders: read_pubkey(data, 496),
            market: read_pubkey(data, 528),
            market_program: read_pubkey(data, 560),
            target_orders: read_pubkey(data, 592),
            padding1: read_u64s::<8>(data, 624),
            amm_owner: read_pubkey(data, 688),
            lp_amount: read_u64(data, 720),
            client_order_id: read_u64(data, 728),
            padding2: read_u64s::<2>(data, 736),
        };
        proof {
            lemma_amm_info_decoding_unique(data@, r);
        }
        r
    }

    /// Decodes a pool from the start of a buffer that must be longer than a pool account.
    pub fn unpack_from_slice(src: &[u8]) -> (r: Result<AmmInfo, LockerError>)
        ensures
            src@.len() <= AMM_INFO_SIZE ==> r == Err::<AmmInfo, LockerError>(
                LockerError::Raydium(RaydiumAmmError::InvalidState),
            ),
            src@.len() > AMM_INFO_SIZE ==> r == Ok::<AmmInfo, LockerError>(
                spec_amm_info(src@.subrange(0, AMM_INFO_SIZE as int)),
            ),
    {
        if src.len() <= AMM_INFO_SIZE {
            return Err(LockerError::Raydium(RaydiumAmmError::InvalidState));
        }
        let head = vstd::slice::slice_subrange(src, 0, AMM_INFO_SIZE);
        Ok(Self::load(head))
    }

    /// Decodes a pool account after checking that the Raydium AMM program owns it, that it has
    /// the pool's size, and that the pool is initialized.
    pub fn load_checked(owner: &Pubkey, data: &[u8]) -> (r: Result<AmmInfo, LockerError>)
        ensures
            !is_raydium_amm_id(*owner) ==> r == Err::<AmmInfo, LockerError>(
                LockerError::Raydium(RaydiumAmmError::InvalidAmmAccountOwner),
            ),
            is_raydium_amm_id(*owner) && data@.len() != AMM_INFO_SIZE ==> r == Err::<AmmInfo, LockerError>(
                LockerError::Raydium(RaydiumAmmError::ExpectedAccount),
            ),
            is_raydium_amm_id(*owner) && data@.len() == AMM_INFO_SIZE && le_u64_at(data@, 0) == 0 ==> r
                == Err::<AmmInfo, LockerError>(LockerError::Raydium(RaydiumAmmError::InvalidStatus)),
            is_raydium_amm_id(*owner) && data@.len() == AMM_INFO_SIZE && le_u64_at(data@, 0) != 0 ==> (r
                matches Ok(info) && amm_info_decodes(data@, info) && info == spec_amm_info(data@)),
    {
        if !check_raydium_amm_id(owner) {
            return Err(LockerError::Raydium(RaydiumAmmError::InvalidAmmAccountOwner));
        }
        if data.len() != AMM_INFO_SIZE {
            return Err(LockerError::Raydium(RaydiumAmmError::ExpectedAccount));
        }
        let info = Self::load(data);
        if info.status == 0 {
            return Err(LockerError::Raydium(RaydiumAmmError::InvalidStatus));
        }
        Ok(info)
    }
}

} // verus!
