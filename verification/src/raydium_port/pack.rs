//! Encoding a pool into the bytes of its account.
use vstd::prelude::*;
use vstd::bytes::{
    lemma_auto_spec_u128_to_from_le_bytes, lemma_auto_spec_u64_to_from_le_bytes, spec_u128_to_le_bytes,
    spec_u64_to_le_bytes, u128_to_le_bytes, u64_to_le_bytes,
};
use crate::pubkey::Pubkey;
use crate::raydium_port::state::{
    amm_info_decodes, lemma_amm_info_decoding_unique, spec_amm_info, AmmInfo, Fees, StateData, AMM_INFO_SIZE,
};

verus! {

/// The bytes of the pool's header part, as the pool account stores them.
pub open spec fn header_bytes(a: AmmInfo) -> Seq<u8> {
    spec_u64_to_le_bytes(a.status)
        + spec_u64_to_le_bytes(a.nonce)
        + spec_u64_to_le_bytes(a.order_num)
        + spec_u64_to_le_bytes(a.depth)
        + spec_u64_to_le_bytes(a.coin_decimals)
        + spec_u64_to_le_bytes(a.pc_decimals)
        + spec_u64_to_le_bytes(a.state)
        + spec_u64_to_le_bytes(a.reset_flag)
        + spec_u64_to_le_bytes(a.min_size)
        + spec_u64_to_le_bytes(a.vol_max_cut_ratio)
        + spec_u64_to_le_bytes(a.amount_wave)
        + spec_u64_to_le_bytes(a.coin_lot_size)
        + spec_u64_to_le_bytes(a.pc_lot_size)
        + spec_u64_to_le_bytes(a.min_price_multiplier)
        + spec_u64_to_le_bytes(a.max_price_multiplier)
        + spec_u64_to_le_bytes(a.sys_decimal_value)
}

/// The bytes of the pool's fees part, as the pool account stores them.
pub open spec fn fees_bytes(f: Fees) -> Seq<u8> {
    spec_u64_to_le_bytes(f.min_separate_numerator)
        + spec_u64_to_le_bytes(f.min_separate_denominator)
        + spec_u64_to_le_bytes(f.trade_fee_numerator)
        + spec_u64_to_le_bytes(f.trade_fee_denominator)
        + spec_u64_to_le_bytes(f.pnl_numerator)
        + spec_u64_to_le_bytes(f.pnl_denominator)
        + spec_u64_to_le_bytes(f.swap_fee_numerator)
        + spec_u64_to_le_bytes(f.swap_fee_denominator)
}

/// The bytes of the pool's state data part, as the pool account stores them.
pub open spec fn state_data_bytes(s: StateData) -> Seq<u8> {
    spec_u64_to_le_bytes(s.need_take_pnl_coin)
        + spec_u64_to_le_bytes(s.need_take_pnl_pc)
        + spec_u64_to_le_bytes(s.total_pnl_pc)
        + spec_u64_to_le_bytes(s.total_pnl_coin)
        + spec_u64_to_le_bytes(s.pool_open_time)
        + spec_u64_to_le_bytes(s.padding@[0])
        + spec_u64_to_le_bytes(s.padding@[1])
        + spec_u64_to_le_bytes(s.orderbook_to_init_time)
        + spec_u128_to_le_bytes(s.swap_coin_in_amount)
        + spec_u128_to_le_bytes(s.swap_pc_out_amount)
        + spec_u64_to_le_bytes(s.swap_acc_pc_fee)
        + spec_u128_to_le_bytes(s.swap_pc_in_amount)
        + spec_u128_to_le_bytes(s.swap_coin_out_amount)
        + spec_u64_to_le_bytes(s.swap_acc_coin_fee)
}

/// The bytes of the pool's keys part, as the pool account stores them.
pub open spec fn keys_bytes(a: AmmInfo) -> Seq<u8> {
    a.coin_vault.bytes@
        + a.pc_vault.bytes@
        + a.coin_vault_mint.bytes@
        + a.pc_vault_mint.bytes@
        + a.lp_mint.bytes@
        + a.open_orders.bytes@
        + a.market.bytes@
        + a.market_program.bytes@
        + a.target_orders.bytes@
}

/// The bytes of the pool's tail part, as the pool account stores them.
pub open spec fn tail_bytes(a: AmmInfo) -> Seq<u8> {
    spec_u64_to_le_bytes(a.padding1@[0])
        + spec_u64_to_le_bytes(a.padding1@[1])
        + spec_u64_to_le_bytes(a.padding1@[2])
        + spec_u64_to_le_bytes(a.padding1@[3])
        + spec_u64_to_le_bytes(a.padding1@[4])
        + spec_u64_to_le_bytes(a.padding1@[5])
        + spec_u64_to_le_bytes(a.padding1@[6])
        + spec_u64_to_le_bytes(a.padding1@[7])
        + a.amm_owner.bytes@
        + spec_u64_to_le_bytes(a.lp_amount)
        + spec_u64_to_le_bytes(a.client_order_id)
        + spec_u64_to_le_bytes(a.padding2@[0])
        + spec_u64_to_le_bytes(a.padding2@[1])
}

/// The bytes of a pool account holding `a`.
pub open spec fn amm_info_bytes(a: AmmInfo) -> Seq<u8> {
    header_bytes(a) + fees_bytes(a.fees) + state_data_bytes(a.state_data) + keys_bytes(a) + tail_bytes(a)
}

/// A range inside the left part of a concatenation.
broadcast proof fn lemma_add_subrange_left(a: Seq<u8>, b: Seq<u8>, i: int, j: int)
    requires
        0 <= i <= j <= a.len(),
    ensures
        #[trigger] (a + b).subrange(i, j) == a.subrange(i, j),
{
    assert((a + b).subrange(i, j) =~= a.subrange(i, j));
}

/// A range inside the right part of a concatenation.
broadcast proof fn lemma_add_subrange_right(a: Seq<u8>, b: Seq<u8>, i: int, j: int)
    requires
        a.len() <= i <= j <= a.len() + b.len(),
    ensures
        #[trigger] (a + b).subrange(i, j) == b.subrange(i - a.len(), j - a.len()),
{
    assert((a + b).subrange(i, j) =~= b.subrange(i - a.len(), j - a.len()));
}

/// The whole of a sequence.
broadcast proof fn lemma_subrange_whole(s: Seq<u8>, j: int)
    requires
        j == s.len(),
    ensures
        #[trigger] s.subrange(0, j) == s,
{
    assert(s.subrange(0, j) =~= s);
}

/// Two adjacent ranges make one.
broadcast proof fn lemma_adjacent_subranges(s: Seq<u8>, a: int, b: int, c: int)
    requires
        0 <= a <= b <= c <= s.len(),
    ensures
        #[trigger] (s.subrange(a, b) + s.subrange(b, c)) == s.subrange(a, c),
{
    assert(s.subrange(a, b) + s.subrange(b, c) =~= s.subrange(a, c));
}

/// A range of a part is the matching range of the whole.
proof fn lemma_within(e: Seq<u8>, o: int, g: Seq<u8>, lo: int, n: int)
    requires
        0 <= o,
        o + g.len() <= e.len(),
        e.subrange(o, o + g.len()) == g,
        0 <= lo,
        0 <= n,
        lo + n <= g.len(),
    ensures
        e.subrange(o + lo, o + lo + n) == g.subrange(lo, lo + n),
{
    assert(e.subrange(o + lo, o + lo + n) =~= g.subrange(lo, lo + n)) by {
        assert forall|t: int| 0 <= t < n implies #[trigger] e.subrange(o + lo, o + lo + n)[t] == g.subrange(lo, lo + n)[t] by {
            assert(e.subrange(o, o + g.len())[lo + t] == e[o + lo + t]);
        }
    }
}

proof fn lemma_header_pieces(a: AmmInfo)
    ensures
        header_bytes(a).len() == 128,
        header_bytes(a).subrange(0, 8) == spec_u64_to_le_bytes(a.status),
        header_bytes(a).subrange(8, 16) == spec_u64_to_le_bytes(a.nonce),
        header_bytes(a).subrange(16, 24) == spec_u64_to_le_bytes(a.order_num),
        header_bytes(a).subrange(24, 32) == spec_u64_to_le_bytes(a.depth),
        header_bytes(a).subrange(32, 40) == spec_u64_to_le_bytes(a.coin_decimals),
        header_bytes(a).subrange(40, 48) == spec_u64_to_le_bytes(a.pc_decimals),
        header_bytes(a).subrange(48, 56) == spec_u64_to_le_bytes(a.state),
        header_bytes(a).subrange(56, 64) == spec_u64_to_le_bytes(a.reset_flag),
        header_bytes(a).subrange(64, 72) == spec_u64_to_le_bytes(a.min_size),
        header_bytes(a).subrange(72, 80) == spec_u64_to_le_bytes(a.vol_max_cut_ratio),
        header_bytes(a).subrange(80, 88) == spec_u64_to_le_bytes(a.amount_wave),
        header_bytes(a).subrange(88, 96) == spec_u64_to_le_bytes(a.coin_lot_size),
        header_bytes(a).subrange(96, 104) == spec_u64_to_le_bytes(a.pc_lot_size),
        header_bytes(a).subrange(104, 112) == spec_u64_to_le_bytes(a.min_price_multiplier),
        header_bytes(a).subrange(112, 120) == spec_u64_to_le_bytes(a.max_price_multiplier),
        header_bytes(a).subrange(120, 128) == spec_u64_to_le_bytes(a.sys_decimal_value),
{
    lemma_auto_spec_u64_to_from_le_bytes();
    lemma_auto_spec_u128_to_from_le_bytes();
    broadcast use lemma_add_subrange_left, lemma_add_subrange_right, lemma_subrange_whole;
}

proof fn lemma_fees_pieces(f: Fees)
    ensures
        fees_bytes(f).len() == 64,
        fees_bytes(f).subrange(0, 8) == spec_u64_to_le_bytes(f.min_separate_numerator),
        fees_bytes(f).subrange(8, 16) == spec_u64_to_le_bytes(f.min_separate_denominator),
        fees_bytes(f).subrange(16, 24) == spec_u64_to_le_bytes(f.trade_fee_numerator),
        fees_bytes(f).subrange(24, 32) == spec_u64_to_le_bytes(f.trade_fee_denominator),
        fees_bytes(f).subrange(32, 40) == spec_u64_to_le_bytes(f.pnl_numerator),
        fees_bytes(f).subrange(40, 48) == spec_u64_to_le_bytes(f.pnl_denominator),
        fees_bytes(f).subrange(48, 56) == spec_u64_to_le_bytes(f.swap_fee_numerator),
        fees_bytes(f).subrange(56, 64) == spec_u64_to_le_bytes(f.swap_fee_denominator),
{
    lemma_auto_spec_u64_to_from_le_bytes();
    lemma_auto_spec_u128_to_from_le_bytes();
    broadcast use lemma_add_subrange_left, lemma_add_subrange_right, lemma_subrange_whole;
}

proof fn lemma_state_data_pieces(s: StateData)
    ensures
        state_data_bytes(s).len() == 144,
        state_data_bytes(s).subrange(0, 8) == spec_u64_to_le_bytes(s.need_take_pnl_coin),
        state_data_bytes(s).subrange(8, 16) == spec_u64_to_le_bytes(s.need_take_pnl_pc),
        state_data_bytes(s).subrange(16, 24) == spec_u64_to_le_bytes(s.total_pnl_pc),
        state_data_bytes(s).subrange(24, 32) == spec_u64_to_le_bytes(s.total_pnl_coin),
        state_data_bytes(s).subrange(32, 40) == spec_u64_to_le_bytes(s.pool_open_time),
        state_data_bytes(s).subrange(40, 48) == spec_u64_to_le_bytes(s.padding@[0]),
        state_data_bytes(s).subrange(48, 56) == spec_u64_to_le_bytes(s.padding@[1]),
        state_data_bytes(s).subrange(56, 64) == spec_u64_to_le_bytes(s.orderbook_to_init_time),
        state_data_bytes(s).subrange(64, 80) == spec_u128_to_le_bytes(s.swap_coin_in_amount),
        state_data_bytes(s).subrange(80, 96) == spec_u128_to_le_bytes(s.swap_pc_out_amount),
        state_data_bytes(s).subrange(96, 104) == spec_u64_to_le_bytes(s.swap_acc_pc_fee),
        state_data_bytes(s).subrange(104, 120) == spec_u128_to_le_bytes(s.swap_pc_in_amount),
        state_data_bytes(s).subrange(120, 136) == spec_u128_to_le_bytes(s.swap_coin_out_amount),
        state_data_bytes(s).subrange(136, 144) == spec_u64_to_le_bytes(s.swap_acc_coin_fee),
{
    lemma_auto_spec_u64_to_from_le_bytes();
    lemma_auto_spec_u128_to_from_le_bytes();
    broadcast use lemma_add_subrange_left, lemma_add_subrange_right, lemma_subrange_whole;
}

proof fn lemma_keys_pieces(a: AmmInfo)
    ensures
        keys_bytes(a).len() == 288,
        keys_bytes(a).subrange(0, 32) == a.coin_vault.bytes@,
        keys_bytes(a).subrange(32, 64) == a.pc_vault.bytes@,
        keys_bytes(a).subrange(64, 96) == a.coin_vault_mint.bytes@,
        keys_bytes(a).subrange(96, 128) == a.pc_vault_mint.bytes@,
        keys_bytes(a).subrange(128, 160) == a.lp_mint.bytes@,
        keys_bytes(a).subrange(160, 192) == a.open_orders.bytes@,
        keys_bytes(a).subrange(192, 224) == a.market.bytes@,
        keys_bytes(a).subrange(224, 256) == a.market_program.bytes@,
        keys_bytes(a).subrange(256, 288) == a.target_orders.bytes@,
{
    lemma_auto_spec_u64_to_from_le_bytes();
    lemma_auto_spec_u128_to_from_le_bytes();
    broadcast use lemma_add_subrange_left, lemma_add_subrange_right, lemma_subrange_whole;
}

proof fn lemma_tail_pieces(a: AmmInfo)
    ensures
        tail_bytes(a).len() == 128,
        tail_bytes(a).subrange(0, 8) == spec_u64_to_le_bytes(a.padding1@[0]),
        tail_bytes(a).subrange(8, 16) == spec_u64_to_le_bytes(a.padding1@[1]),
        tail_bytes(a).subrange(16, 24) == spec_u64_to_le_bytes(a.padding1@[2]),
        tail_bytes(a).subrange(24, 32) == spec_u64_to_le_bytes(a.padding1@[3]),
        tail_bytes(a).subrange(32, 40) == spec_u64_to_le_bytes(a.padding1@[4]),
        tail_bytes(a).subrange(40, 48) == spec_u64_to_le_bytes(a.padding1@[5]),
        tail_bytes(a).subrange(48, 56) == spec_u64_to_le_bytes(a.padding1@[6]),
        tail_bytes(a).subrange(56, 64) == spec_u64_to_le_bytes(a.padding1@[7]),
        tail_bytes(a).subrange(64, 96) == a.amm_owner.bytes@,
        tail_bytes(a).subrange(96, 104) == spec_u64_to_le_bytes(a.lp_amount),
        tail_bytes(a).subrange(104, 112) == spec_u64_to_le_bytes(a.client_order_id),
        tail_bytes(a).subrange(112, 120) == spec_u64_to_le_bytes(a.padding2@[0]),
        tail_bytes(a).subrange(120, 128) == spec_u64_to_le_bytes(a.padding2@[1]),
{
    lemma_auto_spec_u64_to_from_le_bytes();
    lemma_auto_spec_u128_to_from_le_bytes();
    broadcast use lemma_add_subrange_left, lemma_add_subrange_right, lemma_subrange_whole;
}

/// The pool's account bytes decode to the pool: encoding loses nothing.
pub proof fn lemma_amm_info_bytes_decode(a: AmmInfo)
    ensures
        amm_info_bytes(a).len() == AMM_INFO_SIZE,
        amm_info_decodes(amm_info_bytes(a), a),
{
    lemma_auto_spec_u64_to_from_le_bytes();
    lemma_auto_spec_u128_to_from_le_bytes();
    broadcast use lemma_add_subrange_left, lemma_add_subrange_right, lemma_subrange_whole;
    let e = amm_info_bytes(a);
    lemma_header_pieces(a);
    lemma_fees_pieces(a.fees);
    lemma_state_data_pieces(a.state_data);
    lemma_keys_pieces(a);
    lemma_tail_pieces(a);
    assert(e.subrange(0, 128) == header_bytes(a));
    assert(e.subrange(128, 192) == fees_bytes(a.fees));
    assert(e.subrange(192, 336) == state_data_bytes(a.state_data));
    assert(e.subrange(336, 624) == keys_bytes(a));
    assert(e.subrange(624, 752) == tail_bytes(a));
    lemma_within(e, 0, header_bytes(a), 0, 8);
    lemma_within(e, 0, header_bytes(a), 8, 8);
    lemma_within(e, 0, header_bytes(a), 16, 8);
    lemma_within(e, 0, header_bytes(a), 24, 8);
    lemma_within(e, 0, header_bytes(a), 32, 8);
    lemma_within(e, 0, header_bytes(a), 40, 8);
    lemma_within(e, 0, header_bytes(a), 48, 8);
    lemma_within(e, 0, header_bytes(a), 56, 8);
    lemma_within(e, 0, header_bytes(a), 64, 8);
    lemma_within(e, 0, header_bytes(a), 72, 8);
    lemma_within(e, 0, header_bytes(a), 80, 8);
    lemma_within(e, 0, header_bytes(a), 88, 8);
    lemma_within(e, 0, header_bytes(a), 96, 8);
    lemma_within(e, 0, header_bytes(a), 104, 8);
    lemma_within(e, 0, header_bytes(a), 112, 8);
    lemma_within(e, 0, header_bytes(a), 120, 8);
    lemma_within(e, 128, fees_bytes(a.fees), 0, 8);
    lemma_within(e, 128, fees_bytes(a.fees), 8, 8);
    lemma_within(e, 128, fees_bytes(a.fees), 16, 8);
    lemma_within(e, 128, fees_bytes(a.fees), 24, 8);
    lemma_within(e, 128, fees_bytes(a.fees), 32, 8);
    lemma_within(e, 128, fees_bytes(a.fees), 40, 8);
    lemma_within(e, 128, fees_bytes(a.fees), 48, 8);
    lemma_within(e, 128, fees_bytes(a.fees), 56, 8);
    lemma_within(e, 192, state_data_bytes(a.state_data), 0, 8);
    lemma_within(e, 192, state_data_bytes(a.state_data), 8, 8);
    lemma_within(e, 192, state_data_bytes(a.state_data), 16, 8);
    lemma_within(e, 192, state_data_bytes(a.state_data), 24, 8);
    lemma_within(e, 192, state_data_bytes(a.state_data), 32, 8);
    lemma_within(e, 192, state_data_bytes(a.state_data), 40, 8);
    lemma_within(e, 192, state_data_bytes(a.state_data), 48, 8);
    lemma_within(e, 192, state_data_bytes(a.state_data), 56, 8);
    lemma_within(e, 192, state_data_bytes(a.state_data), 64, 16);
    lemma_within(e, 192, state_data_bytes(a.state_data), 80, 16);
    lemma_within(e, 192, state_data_bytes(a.state_data), 96, 8);
    lemma_within(e, 192, state_data_bytes(a.state_data), 104, 16);
    lemma_within(e, 192, state_data_bytes(a.state_data), 120, 16);
    lemma_within(e, 192, state_data_bytes(a.state_data), 136, 8);
    lemma_within(e, 336, keys_bytes(a), 0, 32);
    lemma_within(e, 336, keys_bytes(a), 32, 32);
    lemma_within(e, 336, keys_bytes(a), 64, 32);
    lemma_within(e, 336, keys_bytes(a), 96, 32);
    lemma_within(e, 336, keys_bytes(a), 128, 32);
    lemma_within(e, 336, keys_bytes(a), 160, 32);
    lemma_within(e, 336, keys_bytes(a), 192, 32);
    lemma_within(e, 336, keys_bytes(a), 224, 32);
    lemma_within(e, 336, keys_bytes(a), 256, 32);
    lemma_within(e, 624, tail_bytes(a), 0, 8);
    lemma_within(e, 624, tail_bytes(a), 8, 8);
    lemma_within(e, 624, tail_bytes(a), 16, 8);
    lemma_within(e, 624, tail_bytes(a), 24, 8);
    lemma_within(e, 624, tail_bytes(a), 32, 8);
    lemma_within(e, 624, tail_bytes(a), 40, 8);
    lemma_within(e, 624, tail_bytes(a), 48, 8);
    lemma_within(e, 624, tail_bytes(a), 56, 8);
    lemma_within(e, 624, tail_bytes(a), 64, 32);
    lemma_within(e, 624, tail_bytes(a), 96, 8);
    lemma_within(e, 624, tail_bytes(a), 104, 8);
    lemma_within(e, 624, tail_bytes(a), 112, 8);
    lemma_within(e, 624, tail_bytes(a), 120, 8);
}

/// Writing a pool into an account and reading the account back gives the same pool.
pub proof fn lemma_pack_then_load(a: AmmInfo)
    ensures
        spec_amm_info(amm_info_bytes(a)) == a,
{
    lemma_amm_info_bytes_decode(a);
    lemma_amm_info_decoding_unique(amm_info_bytes(a), a);
}

/// Reading a pool account and writing the pool back gives the same bytes: every byte of the
/// account belongs to a field.
pub proof fn lemma_load_then_pack(d: Seq<u8>, a: AmmInfo)
    requires
        d.len() == AMM_INFO_SIZE,
        amm_info_decodes(d, a),
    ensures
        amm_info_bytes(a) == d,
{
    lemma_auto_spec_u64_to_from_le_bytes();
    lemma_auto_spec_u128_to_from_le_bytes();
    broadcast use lemma_adjacent_subranges, lemma_subrange_whole;
    assert(spec_u64_to_le_bytes(a.status) == d.subrange(0, 8));
    assert(spec_u64_to_le_bytes(a.nonce) == d.subrange(8, 16));
    assert(spec_u64_to_le_bytes(a.order_num) == d.subrange(16, 24));
    assert(spec_u64_to_le_bytes(a.depth) == d.subrange(24, 32));
    assert(spec_u64_to_le_bytes(a.coin_decimals) == d.subrange(32, 40));
    assert(spec_u64_to_le_bytes(a.pc_decimals) == d.subrange(40, 48));
    assert(spec_u64_to_le_bytes(a.state) == d.subrange(48, 56));
    assert(spec_u64_to_le_bytes(a.reset_flag) == d.subrange(56, 64));
    assert(spec_u64_to_le_bytes(a.min_size) == d.subrange(64, 72));
    assert(spec_u64_to_le_bytes(a.vol_max_cut_ratio) == d.subrange(72, 80));
    assert(spec_u64_to_le_bytes(a.amount_wave) == d.subrange(80, 88));
    assert(spec_u64_to_le_bytes(a.coin_lot_size) == d.subrange(88, 96));
    assert(spec_u64_to_le_bytes(a.pc_lot_size) == d.subrange(96, 104));
    assert(spec_u64_to_le_bytes(a.min_price_multiplier) == d.subrange(104, 112));
    assert(spec_u64_to_le_bytes(a.max_price_multiplier) == d.subrange(112, 120));
    assert(spec_u64_to_le_bytes(a.sys_decimal_value) == d.subrange(120, 128));
    assert(spec_u64_to_le_bytes(a.fees.min_separate_numerator) == d.subrange(128, 136));
    assert(spec_u64_to_le_bytes(a.fees.min_separate_denominator) == d.subrange(136, 144));
    assert(spec_u64_to_le_bytes(a.fees.trade_fee_numerator) == d.subrange(144, 152));
    assert(spec_u64_to_le_bytes(a.fees.trade_fee_denominator) == d.subrange(152, 160));
    assert(spec_u64_to_le_bytes(a.fees.pnl_numerator) == d.subrange(160, 168));
    assert(spec_u64_to_le_bytes(a.fees.pnl_denominator) == d.subrange(168, 176));
    assert(spec_u64_to_le_bytes(a.fees.swap_fee_numerator) == d.subrange(176, 184));
    assert(spec_u64_to_le_bytes(a.fees.swap_fee_denominator) == d.subrange(184, 192));
    assert(spec_u64_to_le_bytes(a.state_data.need_take_pnl_coin) == d.subrange(192, 200));
    assert(spec_u64_to_le_bytes(a.state_data.need_take_pnl_pc) == d.subrange(200, 208));
    assert(spec_u64_to_le_bytes(a.state_data.total_pnl_pc) == d.subrange(208, 216));
    assert(spec_u64_to_le_bytes(a.state_data.total_pnl_coin) == d.subrange(216, 224));
    assert(spec_u64_to_le_bytes(a.state_data.pool_open_time) == d.subrange(224, 232));
    assert(spec_u64_to_le_bytes(a.state_data.padding@[0]) == d.subrange(232, 240));
    assert(spec_u64_to_le_bytes(a.state_data.padding@[1]) == d.subrange(240, 248));
    assert(spec_u64_to_le_bytes(a.state_data.orderbook_to_init_time) == d.subrange(248, 256));
    assert(spec_u128_to_le_bytes(a.state_data.swap_coin_in_amount) == d.subrange(256, 272));
    assert(spec_u128_to_le_bytes(a.state_data.swap_pc_out_amount) == d.subrange(272, 288));
    assert(spec_u64_to_le_bytes(a.state_data.swap_acc_pc_fee) == d.subrange(288, 296));
    assert(spec_u128_to_le_bytes(a.state_data.swap_pc_in_amount) == d.subrange(296, 312));
    assert(spec_u128_to_le_bytes(a.state_data.swap_coin_out_amount) == d.subrange(312, 328));
    assert(spec_u64_to_le_bytes(a.state_data.swap_acc_coin_fee) == d.subrange(328, 336));
    assert(a.coin_vault.bytes@ == d.subrange(336, 368));
    assert(a.pc_vault.bytes@ == d.subrange(368, 400));
    assert(a.coin_vault_mint.bytes@ == d.subrange(400, 432));
    assert(a.pc_vault_mint.bytes@ == d.subrange(432, 464));
    assert(a.lp_mint.bytes@ == d.subrange(464, 496));
    assert(a.open_orders.bytes@ == d.subrange(496, 528));
    assert(a.market.bytes@ == d.subrange(528, 560));
    assert(a.market_program.bytes@ == d.subrange(560, 592));
    assert(a.target_orders.bytes@ == d.subrange(592, 624));
    assert(spec_u64_to_le_bytes(a.padding1@[0]) == d.subrange(624, 632));
    assert(spec_u64_to_le_bytes(a.padding1@[1]) == d.subrange(632, 640));
    assert(spec_u64_to_le_bytes(a.padding1@[2]) == d.subrange(640, 648));
    assert(spec_u64_to_le_bytes(a.padding1@[3]) == d.subrange(648, 656));
    assert(spec_u64_to_le_bytes(a.padding1@[4]) == d.subrange(656, 664));
    assert(spec_u64_to_le_bytes(a.padding1@[5]) == d.subrange(664, 672));
    assert(spec_u64_to_le_bytes(a.padding1@[6]) == d.subrange(672, 680));
    assert(spec_u64_to_le_bytes(a.padding1@[7]) == d.subrange(680, 688));
    assert(a.amm_owner.bytes@ == d.subrange(688, 720));
    assert(spec_u64_to_le_bytes(a.lp_amount) == d.subrange(720, 728));
    assert(spec_u64_to_le_bytes(a.client_order_id) == d.subrange(728, 736));
    assert(spec_u64_to_le_bytes(a.padding2@[0]) == d.subrange(736, 744));
    assert(spec_u64_to_le_bytes(a.padding2@[1]) == d.subrange(744, 752));
    assert(header_bytes(a) == d.subrange(0, 128));
    assert(fees_bytes(a.fees) == d.subrange(128, 192));
    assert(state_data_bytes(a.state_data) == d.subrange(192, 336));
    assert(keys_bytes(a) == d.subrange(336, 624));
    assert(tail_bytes(a) == d.subrange(624, 752));
    assert(d.subrange(0, 752) == d);
}

fn put_u64(v: &mut Vec<u8>, x: u64)
    ensures
        final(v)@ == old(v)@ + spec_u64_to_le_bytes(x),
{
    let mut b = u64_to_le_bytes(x);
    v.append(&mut b);
}

fn put_u128(v: &mut Vec<u8>, x: u128)
    ensures
        final(v)@ == old(v)@ + spec_u128_to_le_bytes(x),
{
    let mut b = u128_to_le_bytes(x);
    v.append(&mut b);
}

fn put_key(v: &mut Vec<u8>, k: &Pubkey)
    ensures
        final(v)@ == old(v)@ + k.bytes@,
{
    let ghost start = v@;
    let mut i: usize = 0;
    while i < 32
        invariant
            0 <= i <= 32,
            v@ == start + k.bytes@.subrange(0, i as int),
        decreases 32 - i,
    {
        v.push(k.bytes[i]);
        proof {
            assert(start + k.bytes@.subrange(0, i + 1) =~= (start + k.bytes@.subrange(0, i as int)).push(k.bytes@[i as int]));
        }
        i = i + 1;
    }
    proof {
        assert(k.bytes@.subrange(0, 32) =~= k.bytes@);
    }
}

fn header_vec(a: &AmmInfo) -> (r: Vec<u8>)
    ensures
        r@ == header_bytes(*a),
{
    let mut v: Vec<u8> = Vec::new();
    put_u64(&mut v, a.status);
    proof {
        assert(v@ =~= spec_u64_to_le_bytes(a.status));
    }
    put_u64(&mut v, a.nonce);
    put_u64(&mut v, a.order_num);
    put_u64(&mut v, a.depth);
    put_u64(&mut v, a.coin_decimals);
    put_u64(&mut v, a.pc_decimals);
    put_u64(&mut v, a.state);
    put_u64(&mut v, a.reset_flag);
    put_u64(&mut v, a.min_size);
    put_u64(&mut v, a.vol_max_cut_ratio);
    put_u64(&mut v, a.amount_wave);
    put_u64(&mut v, a.coin_lot_size);
    put_u64(&mut v, a.pc_lot_size);
    put_u64(&mut v, a.min_price_multiplier);
    put_u64(&mut v, a.max_price_multiplier);
    put_u64(&mut v, a.sys_decimal_value);
    v
}

fn fees_vec(f: &Fees) -> (r: Vec<u8>)
    ensures
        r@ == fees_bytes(*f),
{
    let mut v: Vec<u8> = Vec::new();
    put_u64(&mut v, f.min_separate_numerator);
    proof {
        assert(v@ =~= spec_u64_to_le_bytes(f.min_separate_numerator));
    }
    put_u64(&mut v, f.min_separate_denominator);
    put_u64(&mut v, f.trade_fee_numerator);
    put_u64(&mut v, f.trade_fee_denominator);
    put_u64(&mut v, f.pnl_numerator);
    put_u64(&mut v, f.pnl_denominator);
    put_u64(&mut v, f.swap_fee_numerator);
    put_u64(&mut v, f.swap_fee_denominator);
    v
}

fn state_data_vec(s: &StateData) -> (r: Vec<u8>)
    ensures
        r@ == state_data_bytes(*s),
{
    let mut v: Vec<u8> = Vec::new();
    put_u64(&mut v, s.need_take_pnl_coin);
    proof {
        assert(v@ =~= spec_u64_to_le_bytes(s.need_take_pnl_coin));
    }
    put_u64(&mut v, s.need_take_pnl_pc);
    put_u64(&mut v, s.total_pnl_pc);
    put_u64(&mut v, s.total_pnl_coin);
    put_u64(&mut v, s.pool_open_time);
    put_u64(&mut v, s.padding[0]);
    put_u64(&mut v, s.padding[1]);
    put_u64(&mut v, s.orderbook_to_init_time);
    put_u128(&mut v, s.swap_coin_in_amount);
    put_u128(&mut v, s.swap_pc_out_amount);
    put_u64(&mut v, s.swap_acc_pc_fee);
    put_u128(&mut v, s.swap_pc_in_amount);
    put_u128(&mut v, s.swap_coin_out_amount);
    put_u64(&mut v, s.swap_acc_coin_fee);
    v
}

fn keys_vec(a: &AmmInfo) -> (r: Vec<u8>)
    ensures
        r@ == keys_bytes(*a),
{
    let mut v: Vec<u8> = Vec::new();
    put_key(&mut v, &a.coin_vault);
    proof {
        assert(v@ =~= a.coin_vault.bytes@);
    }
    put_key(&mut v, &a.pc_vault);
    put_key(&mut v, &a.coin_vault_mint);
    put_key(&mut v, &a.pc_vault_mint);
    put_key(&mut v, &a.lp_mint);
    put_key(&mut v, &a.open_orders);
    put_key(&mut v, &a.market);
    put_key(&mut v, &a.market_program);
    put_key(&mut v, &a.target_orders);
    v
}

fn tail_vec(a: &AmmInfo) -> (r: Vec<u8>)
    ensures
        r@ == tail_bytes(*a),
{
    let mut v: Vec<u8> = Vec::new();
    put_u64(&mut v, a.padding1[0]);
    proof {
        assert(v@ =~= spec_u64_to_le_bytes(a.padding1@[0]));
    }
    put_u64(&mut v, a.padding1[1]);
    put_u64(&mut v, a.padding1[2]);
    put_u64(&mut v, a.padding1[3]);
    put_u64(&mut v, a.padding1[4]);
    put_u64(&mut v, a.padding1[5]);
    put_u64(&mut v, a.padding1[6]);
    put_u64(&mut v, a.padding1[7]);
    put_key(&mut v, &a.amm_owner);
    put_u64(&mut v, a.lp_amount);
    put_u64(&mut v, a.client_order_id);
    put_u64(&mut v, a.padding2[0]);
    put_u64(&mut v, a.padding2[1]);
    v
}

impl AmmInfo {
    /// The bytes of a pool account holding this pool.
    pub fn pack(&self) -> (r: Vec<u8>)
        ensures
            r@ == amm_info_bytes(*self),
    {
        let mut v = header_vec(self);
        let mut f = fees_vec(&self.fees);
        v.append(&mut f);
        let mut s = state_data_vec(&self.state_data);
        v.append(&mut s);
        let mut k = keys_vec(self);
        v.append(&mut k);
        let mut t = tail_vec(self);
        v.append(&mut t);
        v
    }

    /// Writes the pool into a buffer of a pool account's size.
    pub fn pack_into_slice(&self, dst: &mut [u8])
        requires
            old(dst)@.len() == AMM_INFO_SIZE,
        ensures
            final(dst)@ == amm_info_bytes(*self),
    {
        let bytes = self.pack();
        proof {
            lemma_amm_info_bytes_decode(*self);
        }
        let mut i: usize = 0;
        while i < AMM_INFO_SIZE
            invariant
                0 <= i <= AMM_INFO_SIZE,
                bytes@.len() == AMM_INFO_SIZE,
                dst@.len() == AMM_INFO_SIZE,
                forall|j: int| 0 <= j < i ==> dst@[j] == bytes@[j],
            decreases AMM_INFO_SIZE - i,
        {
            dst[i] = bytes[i];
            i = i + 1;
        }
        proof {
            assert(dst@ =~= bytes@);
        }
    }
}

} // verus!
