//! The true reserves of a Raydium pool: its vault balances minus the profit and loss the pool
//! has yet to take.
use vstd::prelude::*;
use vstd::arithmetic::div_mod::{lemma_fundamental_div_mod, lemma_mod_bound};
use crate::error::{LockerError, RaydiumAmmError};
use crate::raydium_port::math::{
    checked_pow10, isqrt, lemma_isqrt_unique, pow10, restore_decimal_defined, spec_normalize_decimal,
    spec_restore_decimal, u256_as_u128, u256_bound, u256_checked_div, u256_checked_mul, u256_checked_sub,
    u256_from_u128, u256_integer_sqrt, Calculator, U256,
};
use crate::raydium_port::state::{AmmInfo, AmmStatus, TargetOrders};

verus! {

/// The last settled pc reserve, in pc decimals.
pub open spec fn spec_calc_pc_amount(target: TargetOrders, amm: AmmInfo) -> int {
    spec_restore_decimal(target.calc_pnl_x as int, amm.pc_decimals as nat, amm.sys_decimal_value as int)
}

/// The last settled coin reserve, in coin decimals.
pub open spec fn spec_calc_coin_amount(target: TargetOrders, amm: AmmInfo) -> int {
    spec_restore_decimal(target.calc_pnl_y as int, amm.coin_decimals as nat, amm.sys_decimal_value as int)
}

/// The pc reserve the pool would have at the current price had it kept the settled product:
/// `sqrt(calc_pnl_x * calc_pnl_y * x1 / y1)`.
pub open spec fn spec_x2(target: TargetOrders, x1: int, y1: int) -> int {
    isqrt((target.calc_pnl_x * target.calc_pnl_y * x1) / y1)
}

/// The matching coin reserve: `x2 * y1 / x1`.
pub open spec fn spec_y2(target: TargetOrders, x1: int, y1: int) -> int {
    (spec_x2(target, x1, y1) * y1) / x1
}

/// The pool's share of the growth, in system decimals: `(x1 - x2) * pnl_numerator / pnl_denominator`.
pub open spec fn spec_delta_x(target: TargetOrders, amm: AmmInfo, x1: int, y1: int) -> int {
    ((x1 - spec_x2(target, x1, y1)) * amm.fees.pnl_numerator) / (amm.fees.pnl_denominator as int)
}

/// Coin side of `spec_delta_x`.
pub open spec fn spec_delta_y(target: TargetOrders, amm: AmmInfo, x1: int, y1: int) -> int {
    ((y1 - spec_y2(target, x1, y1)) * amm.fees.pnl_numerator) / (amm.fees.pnl_denominator as int)
}

/// The pc the pool takes as profit and loss, in pc decimals.
pub open spec fn spec_pc_pnl(target: TargetOrders, amm: AmmInfo, x1: int, y1: int) -> int {
    (spec_restore_decimal(x1 - spec_x2(target, x1, y1), amm.pc_decimals as nat, amm.sys_decimal_value as int)
        * amm.fees.pnl_numerator) / (amm.fees.pnl_denominator as int)
}

/// The coin the pool takes as profit and loss, in coin decimals.
pub open spec fn spec_coin_pnl(target: TargetOrders, amm: AmmInfo, x1: int, y1: int) -> int {
    (spec_restore_decimal(y1 - spec_y2(target, x1, y1), amm.coin_decimals as nat, amm.sys_decimal_value as int)
        * amm.fees.pnl_numerator) / (amm.fees.pnl_denominator as int)
}

/// The pool's current constant product is at least the settled one.
pub open spec fn pnl_product_grew(target: TargetOrders, amm: AmmInfo, pc: int, coin: int) -> bool {
    pc * coin >= spec_calc_pc_amount(target, amm) * spec_calc_coin_amount(target, amm)
}

/// Every step of the profit-and-loss arithmetic stays within its integer width, divides by
/// nonzero values and subtracts no more than there is.
pub open spec fn take_pnl_defined(target: TargetOrders, amm: AmmInfo, pc: int, coin: int, x1: int, y1: int) -> bool {
    let sys = amm.sys_decimal_value as int;
    let calc_pc = spec_calc_pc_amount(target, amm);
    let calc_coin = spec_calc_coin_amount(target, amm);
    let x2 = spec_x2(target, x1, y1);
    let y2 = spec_y2(target, x1, y1);
    let num = amm.fees.pnl_numerator as int;
    &&& restore_decimal_defined(target.calc_pnl_x as int, amm.pc_decimals as nat, sys)
    &&& restore_decimal_defined(target.calc_pnl_y as int, amm.coin_decimals as nat, sys)
    &&& calc_pc * calc_coin <= u128::MAX
    &&& pnl_product_grew(target, amm, pc, coin) ==> {
        &&& target.calc_pnl_x * target.calc_pnl_y * x1 < u256_bound()
        &&& y1 != 0
        &&& x1 != 0
        &&& x2 * y1 < u256_bound()
        &&& x2 <= x1
        &&& y2 <= y1
        &&& x1 - x2 <= u128::MAX
        &&& y1 - y2 <= u128::MAX
        &&& (x1 - x2) * num <= u128::MAX
        &&& (y1 - y2) * num <= u128::MAX
        &&& amm.fees.pnl_denominator != 0
        &&& restore_decimal_defined(x1 - x2, amm.pc_decimals as nat, sys)
        &&& restore_decimal_defined(y1 - y2, amm.coin_decimals as nat, sys)
        &&& spec_restore_decimal(x1 - x2, amm.pc_decimals as nat, sys) * num <= u128::MAX
        &&& spec_restore_decimal(y1 - y2, amm.coin_decimals as nat, sys) * num <= u128::MAX
        &&& spec_pc_pnl(target, amm, x1, y1) <= u64::MAX
        &&& spec_coin_pnl(target, amm, x1, y1) <= u64::MAX
        &&& spec_pc_pnl(target, amm, x1, y1) != 0 && spec_coin_pnl(target, amm, x1, y1) != 0 ==> {
            &&& spec_pc_pnl(target, amm, x1, y1) <= pc
            &&& spec_coin_pnl(target, amm, x1, y1) <= coin
        }
    }
}

fn mul_u128(a: u128, b: u128) -> (r: u128)
    requires
        a * b <= u128::MAX,
    ensures
        r == a * b,
{
    a * b
}

/// Takes the pool's profit and loss out of its totals: when the constant product has grown
/// since the last settlement, the pool's share of the growth (a `pnl_numerator /
/// pnl_denominator` part of the difference between the current reserves and those at the
/// settled product) is subtracted from the totals and returned in system decimals; when either
/// side's share rounds to zero nothing is taken. A product below the settled one is an error.
pub fn calc_take_pnl(
    target: &TargetOrders,
    amm: &AmmInfo,
    total_pc_without_take_pnl: &mut u64,
    total_coin_without_take_pnl: &mut u64,
    x1: U256,
    y1: U256,
) -> (r: Result<(u128, u128), LockerError>)
    requires
        take_pnl_defined(
            *target,
            *amm,
            *old(total_pc_without_take_pnl) as int,
            *old(total_coin_without_take_pnl) as int,
            x1@,
            y1@,
        ),
    ensures
        !pnl_product_grew(*target, *amm, *old(total_pc_without_take_pnl) as int, *old(total_coin_without_take_pnl) as int)
            ==> r == Err::<(u128, u128), LockerError>(LockerError::Raydium(RaydiumAmmError::CalcPnlError))
            && *final(total_pc_without_take_pnl) == *old(total_pc_without_take_pnl)
            && *final(total_coin_without_take_pnl) == *old(total_coin_without_take_pnl),
        pnl_product_grew(*target, *amm, *old(total_pc_without_take_pnl) as int, *old(total_coin_without_take_pnl) as int)
            && spec_pc_pnl(*target, *amm, x1@, y1@) != 0 && spec_coin_pnl(*target, *amm, x1@, y1@) != 0 ==> {
            &&& r == Ok::<(u128, u128), LockerError>(
                (spec_delta_x(*target, *amm, x1@, y1@) as u128, spec_delta_y(*target, *amm, x1@, y1@) as u128),
            )
            &&& *final(total_pc_without_take_pnl) == *old(total_pc_without_take_pnl) - spec_pc_pnl(
                *target,
                *amm,
                x1@,
                y1@,
            )
            &&& *final(total_coin_without_take_pnl) == *old(total_coin_without_take_pnl) - spec_coin_pnl(
                *target,
                *amm,
                x1@,
                y1@,
            )
        },
        pnl_product_grew(*target, *amm, *old(total_pc_without_take_pnl) as int, *old(total_coin_without_take_pnl) as int)
            && !(spec_pc_pnl(*target, *amm, x1@, y1@) != 0 && spec_coin_pnl(*target, *amm, x1@, y1@) != 0) ==> {
            &&& r == Ok::<(u128, u128), LockerError>((0, 0))
            &&& *final(total_pc_without_take_pnl) == *old(total_pc_without_take_pnl)
            &&& *final(total_coin_without_take_pnl) == *old(total_coin_without_take_pnl)
        },
{
    let calc_pc_amount = Calculator::restore_decimal(target.calc_pnl_x, amm.pc_decimals, amm.sys_decimal_value);
    let calc_coin_amount = Calculator::restore_decimal(
        target.calc_pnl_y,
        amm.coin_decimals,
        amm.sys_decimal_value,
    );
    let pool_pc_amount = *total_pc_without_take_pnl as u128;
    let pool_coin_amount = *total_coin_without_take_pnl as u128;
    proof {
        assert(pool_pc_amount * pool_coin_amount <= u64::MAX * u64::MAX) by (nonlinear_arith)
            requires
                pool_pc_amount <= u64::MAX,
                pool_coin_amount <= u64::MAX,
        ;
    }
    let pool_product = mul_u128(pool_pc_amount, pool_coin_amount);
    let calc_product = mul_u128(calc_pc_amount, calc_coin_amount);
    if pool_product >= calc_product {
        let pnl_x = u256_from_u128(target.calc_pnl_x);
        let pnl_y = u256_from_u128(target.calc_pnl_y);
        proof {
            assert(0 <= target.calc_pnl_x * target.calc_pnl_y <= u128::MAX * u128::MAX) by (nonlinear_arith)
                requires
                    0 <= target.calc_pnl_x <= u128::MAX,
                    0 <= target.calc_pnl_y <= u128::MAX,
            ;
        }
        let x2_power = Calculator::calc_x_power(pnl_x, pnl_y, x1, y1);
        let x2 = u256_integer_sqrt(x2_power);
        proof {
            lemma_isqrt_unique(x2_power@, x2@);
        }
        let x2y1 = match u256_checked_mul(x2, y1) {
            Some(v) => v,
            None => {
                proof {
                    assert(false);
                }
                x2
            },
        };
        let y2 = match u256_checked_div(x2y1, x1) {
            Some(v) => v,
            None => {
                proof {
                    assert(false);
                }
                x2
            },
        };
        let dx = match u256_checked_sub(x1, x2) {
            Some(v) => v,
            None => {
                proof {
                    assert(false);
                }
                x2
            },
        };
        let dy = match u256_checked_sub(y1, y2) {
            Some(v) => v,
            None => {
                proof {
                    assert(false);
                }
                y2
            },
        };
        let diff_x = u256_as_u128(dx);
        let diff_y = u256_as_u128(dy);
        let num = amm.fees.pnl_numerator as u128;
        let den = amm.fees.pnl_denominator as u128;
        let delta_x = mul_u128(diff_x, num) / den;
        let delta_y = mul_u128(diff_y, num) / den;
        let diff_pc_pnl_amount = Calculator::restore_decimal(diff_x, amm.pc_decimals, amm.sys_decimal_value);
        let diff_coin_pnl_amount = Calculator::restore_decimal(diff_y, amm.coin_decimals, amm.sys_decimal_value);
        let pc_pnl_amount = (mul_u128(diff_pc_pnl_amount, num) / den) as u64;
        let coin_pnl_amount = (mul_u128(diff_coin_pnl_amount, num) / den) as u64;
        if pc_pnl_amount != 0 && coin_pnl_amount != 0 {
            *total_pc_without_take_pnl = *total_pc_without_take_pnl - pc_pnl_amount;
            *total_coin_without_take_pnl = *total_coin_without_take_pnl - coin_pnl_amount;
            Ok((delta_x, delta_y))
        } else {
            Ok((0, 0))
        }
    } else {
        Err(LockerError::Raydium(RaydiumAmmError::CalcPnlError))
    }
}

/// The pool totals net of the profit and loss still to be taken, when the vaults hold at least
/// that much.
pub open spec fn spec_totals_without_take_pnl(amm: AmmInfo, pc_vault_amount: u64, coin_vault_amount: u64) -> Option<(u64, u64)> {
    if pc_vault_amount >= amm.state_data.need_take_pnl_pc && coin_vault_amount >= amm.state_data.need_take_pnl_coin {
        Some(
            (
                (pc_vault_amount - amm.state_data.need_take_pnl_pc) as u64,
                (coin_vault_amount - amm.state_data.need_take_pnl_coin) as u64,
            ),
        )
    } else {
        None
    }
}

/// The pool's totals scaled to system decimals, `(x1, y1)`.
pub open spec fn spec_normalized(amm: AmmInfo, pc: u64, coin: u64) -> (int, int) {
    (
        spec_normalize_decimal(pc as int, amm.pc_decimals as nat, amm.sys_decimal_value as int),
        spec_normalize_decimal(coin as int, amm.coin_decimals as nat, amm.sys_decimal_value as int),
    )
}

/// The reserve computation neither overflows nor divides by zero.
pub open spec fn actual_reserves_defined(amm: AmmInfo, target: TargetOrders, pc_vault_amount: u64, coin_vault_amount: u64) -> bool {
    spec_totals_without_take_pnl(amm, pc_vault_amount, coin_vault_amount) matches Some(totals) ==> {
        let xy = spec_normalized(amm, totals.0, totals.1);
        &&& pow10(amm.pc_decimals as nat) <= u128::MAX
        &&& pow10(amm.coin_decimals as nat) <= u128::MAX
        &&& amm.status != 3 ==> take_pnl_defined(target, amm, totals.0 as int, totals.1 as int, xy.0, xy.1)
    }
}

/// The true reserves `(lp supply, pc reserve, coin reserve)` of a pool whose vaults hold the
/// given amounts, or the error the computation ends with.
pub open spec fn spec_actual_reserves(amm: AmmInfo, target: TargetOrders, pc_vault_amount: u64, coin_vault_amount: u64) -> Result<(u64, u64, u64), LockerError> {
    match spec_totals_without_take_pnl(amm, pc_vault_amount, coin_vault_amount) {
        None => Err(LockerError::Raydium(RaydiumAmmError::CheckedSubOverflow)),
        Some(totals) => {
            let (pc, coin) = totals;
            let xy = spec_normalized(amm, pc, coin);
            if amm.status == 3 {
                Ok((amm.lp_amount, pc, coin))
            } else if !pnl_product_grew(target, amm, pc as int, coin as int) {
                Err(LockerError::Raydium(RaydiumAmmError::CalcPnlError))
            } else if spec_pc_pnl(target, amm, xy.0, xy.1) != 0 && spec_coin_pnl(target, amm, xy.0, xy.1) != 0 {
                Ok(
                    (
                        amm.lp_amount,
                        (pc - spec_pc_pnl(target, amm, xy.0, xy.1)) as u64,
                        (coin - spec_coin_pnl(target, amm, xy.0, xy.1)) as u64,
                    ),
                )
            } else {
                Ok((amm.lp_amount, pc, coin))
            }
        },
    }
}

/// The true reserves of a pool that shares no liquidity with an order book: its lp supply and
/// its vault balances net of the profit and loss it has yet to take (unless the pool is in
/// withdraw-only mode, the pending profit and loss is computed from the growth of its constant
/// product).
pub fn calc_actual_reserves(
    amm: &AmmInfo,
    target_orders: &TargetOrders,
    pc_vault_amount: u64,
    coin_vault_amount: u64,
) -> (r: Result<(u64, u64, u64), LockerError>)
    requires
        actual_reserves_defined(*amm, *target_orders, pc_vault_amount, coin_vault_amount),
    ensures
        r == spec_actual_reserves(*amm, *target_orders, pc_vault_amount, coin_vault_amount),
{
    let (mut total_pc_without_take_pnl, mut total_coin_without_take_pnl) =
        Calculator::calc_total_without_take_pnl_no_orderbook(pc_vault_amount, coin_vault_amount, amm)?;
    let x1 = Calculator::normalize_decimal_v2(total_pc_without_take_pnl, amm.pc_decimals, amm.sys_decimal_value);
    let y1 = Calculator::normalize_decimal_v2(
        total_coin_without_take_pnl,
        amm.coin_decimals,
        amm.sys_decimal_value,
    );
    if amm.status != AmmStatus::WithdrawOnly.into_u64() {
        let x1_wide = u256_from_u128(x1);
        let y1_wide = u256_from_u128(y1);
        calc_take_pnl(
            target_orders,
            amm,
            &mut total_pc_without_take_pnl,
            &mut total_coin_without_take_pnl,
            x1_wide,
            y1_wide,
        )?;
    }
    Ok((amm.lp_amount, total_pc_without_take_pnl, total_coin_without_take_pnl))
}

/// Whether `restore_decimal` can be computed for these arguments.
fn restore_decimal_in_range(val: u128, native_decimal: u64, sys_decimal_value: u64) -> (r: bool)
    ensures
        r == restore_decimal_defined(val as int, native_decimal as nat, sys_decimal_value as int),
{
    match checked_pow10(native_decimal) {
        None => false,
        Some(p) => sys_decimal_value != 0 && val.checked_mul(p).is_some(),
    }
}

/// Whether `a * b / den` fits a `u64`, given that `a * b` fits a `u128` and `den` is nonzero.
fn pnl_share(a: u128, b: u128, den: u128) -> (r: Option<u128>)
    requires
        den != 0,
    ensures
        r is Some <==> a * b <= u128::MAX,
        r matches Some(v) ==> v == (a * b) / (den as int),
{
    match a.checked_mul(b) {
        None => None,
        Some(p) => Some(p / den),
    }
}

/// Whether the profit-and-loss arithmetic of `calc_take_pnl` stays in range for these totals
/// and normalized amounts: decides `take_pnl_defined`.
pub fn take_pnl_in_range(target: &TargetOrders, amm: &AmmInfo, pc: u64, coin: u64, x1: u128, y1: u128) -> (r: bool)
    ensures
        r == take_pnl_defined(*target, *amm, pc as int, coin as int, x1 as int, y1 as int),
{
    let sys = amm.sys_decimal_value;
    if !restore_decimal_in_range(target.calc_pnl_x, amm.pc_decimals, sys)
        || !restore_decimal_in_range(target.calc_pnl_y, amm.coin_decimals, sys) {
        return false;
    }
    let calc_pc = Calculator::restore_decimal(target.calc_pnl_x, amm.pc_decimals, sys);
    let calc_coin = Calculator::restore_decimal(target.calc_pnl_y, amm.coin_decimals, sys);
    let calc_product = match calc_pc.checked_mul(calc_coin) {
        None => return false,
        Some(v) => v,
    };
    proof {
        assert(pc * coin <= u64::MAX * u64::MAX) by (nonlinear_arith)
            requires
                pc <= u64::MAX,
                coin <= u64::MAX,
        ;
    }
    let pool_product = mul_u128(pc as u128, coin as u128);
    if pool_product < calc_product {
        return true;
    }
    let pnl_x = u256_from_u128(target.calc_pnl_x);
    let pnl_y = u256_from_u128(target.calc_pnl_y);
    proof {
        assert(0 <= target.calc_pnl_x * target.calc_pnl_y <= u128::MAX * u128::MAX) by (nonlinear_arith)
            requires
                0 <= target.calc_pnl_x <= u128::MAX,
                0 <= target.calc_pnl_y <= u128::MAX,
        ;
    }
    let xy = match u256_checked_mul(pnl_x, pnl_y) {
        None => return false,
        Some(v) => v,
    };
    let x1_wide = u256_from_u128(x1);
    let y1_wide = u256_from_u128(y1);
    if u256_checked_mul(xy, x1_wide).is_none() || y1 == 0 || x1 == 0 {
        return false;
    }
    let x2_power = Calculator::calc_x_power(pnl_x, pnl_y, x1_wide, y1_wide);
    let x2 = u256_integer_sqrt(x2_power);
    proof {
        lemma_isqrt_unique(x2_power@, x2@);
    }
    let x2y1 = match u256_checked_mul(x2, y1_wide) {
        None => return false,
        Some(v) => v,
    };
    let y2 = match u256_checked_div(x2y1, x1_wide) {
        None => return false,
        Some(v) => v,
    };
    let dx = match u256_checked_sub(x1_wide, x2) {
        None => return false,
        Some(v) => v,
    };
    let dy = match u256_checked_sub(y1_wide, y2) {
        None => return false,
        Some(v) => v,
    };
    let top = u256_from_u128(u128::MAX);
    if u256_checked_sub(top, dx).is_none() || u256_checked_sub(top, dy).is_none() {
        return false;
    }
    let diff_x = u256_as_u128(dx);
    let diff_y = u256_as_u128(dy);
    let num = amm.fees.pnl_numerator as u128;
    let den = amm.fees.pnl_denominator as u128;
    if diff_x.checked_mul(num).is_none() || diff_y.checked_mul(num).is_none() || den == 0 {
        return false;
    }
    if !restore_decimal_in_range(diff_x, amm.pc_decimals, sys)
        || !restore_decimal_in_range(diff_y, amm.coin_decimals, sys) {
        return false;
    }
    let restored_x = Calculator::restore_decimal(diff_x, amm.pc_decimals, sys);
    let restored_y = Calculator::restore_decimal(diff_y, amm.coin_decimals, sys);
    let pc_pnl = match pnl_share(restored_x, num, den) {
        None => return false,
        Some(v) => v,
    };
    let coin_pnl = match pnl_share(restored_y, num, den) {
        None => return false,
        Some(v) => v,
    };
    if pc_pnl > u64::MAX as u128 || coin_pnl > u64::MAX as u128 {
        return false;
    }
    !(pc_pnl != 0 && coin_pnl != 0) || (pc_pnl <= pc as u128 && coin_pnl <= coin as u128)
}

/// Whether `calc_actual_reserves` can be computed for this pool and these vault amounts: decides
/// `actual_reserves_defined`.
pub fn actual_reserves_in_range(
    amm: &AmmInfo,
    target_orders: &TargetOrders,
    pc_vault_amount: u64,
    coin_vault_amount: u64,
) -> (r: bool)
    ensures
        r == actual_reserves_defined(*amm, *target_orders, pc_vault_amount, coin_vault_amount),
{
    let (pc, coin) = match Calculator::calc_total_without_take_pnl_no_orderbook(pc_vault_amount, coin_vault_amount, amm) {
        Err(_) => return true,
        Ok(t) => t,
    };
    if checked_pow10(amm.pc_decimals).is_none() || checked_pow10(amm.coin_decimals).is_none() {
        return false;
    }
    if amm.status == AmmStatus::WithdrawOnly.into_u64() {
        return true;
    }
    let x1 = Calculator::normalize_decimal_v2(pc, amm.pc_decimals, amm.sys_decimal_value);
    let y1 = Calculator::normalize_decimal_v2(coin, amm.coin_decimals, amm.sys_decimal_value);
    take_pnl_in_range(target_orders, amm, pc, coin, x1, y1)
}

/// Taking profit and loss keeps the pool at its current price: the reserves at the settled
/// product are `x2 = isqrt(calc_pnl_x * calc_pnl_y * x1 / y1)` and `y2 = floor(x2 * y1 / x1)`, so
/// that `y2 / x2` is `y1 / x1` rounded down; each side's profit and loss is the
/// `pnl_numerator / pnl_denominator` part of its growth over these reserves, restored to the
/// token's decimals.
pub proof fn lemma_take_pnl_keeps_current_price(target: TargetOrders, amm: AmmInfo, x1: int, y1: int)
    requires
        x1 > 0,
    ensures
        spec_x2(target, x1, y1) == isqrt((target.calc_pnl_x * target.calc_pnl_y * x1) / y1),
        spec_y2(target, x1, y1) * x1 <= spec_x2(target, x1, y1) * y1 < (spec_y2(target, x1, y1) + 1) * x1,
        spec_pc_pnl(target, amm, x1, y1) == (spec_restore_decimal(
            x1 - spec_x2(target, x1, y1),
            amm.pc_decimals as nat,
            amm.sys_decimal_value as int,
        ) * amm.fees.pnl_numerator) / (amm.fees.pnl_denominator as int),
        spec_coin_pnl(target, amm, x1, y1) == (spec_restore_decimal(
            y1 - spec_y2(target, x1, y1),
            amm.coin_decimals as nat,
            amm.sys_decimal_value as int,
        ) * amm.fees.pnl_numerator) / (amm.fees.pnl_denominator as int),
{
    let x2 = spec_x2(target, x1, y1);
    let y2 = spec_y2(target, x1, y1);
    let p = x2 * y1;
    lemma_fundamental_div_mod(p, x1);
    lemma_mod_bound(p, x1);
    assert(y2 * x1 <= p < (y2 + 1) * x1) by (nonlinear_arith)
        requires
            p == x1 * (p / x1) + p % x1,
            0 <= p % x1 < x1,
            y2 == p / x1,
    ;
}

} // verus!
