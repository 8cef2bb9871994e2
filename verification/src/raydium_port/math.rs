//! Integer arithmetic of Raydium pools: decimal scaling, the constant-product power, and 256-bit
//! unsigned integers as computed by `primitive_types::U256`.
use vstd::prelude::*;
use crate::error::{LockerError, RaydiumAmmError};
use crate::raydium_port::state::AmmInfo;

verus! {

/// A 256-bit unsigned integer, held as four little-endian 64-bit words.
#[derive(Clone, Copy, Debug)]
pub struct U256 {
    pub limbs: [u64; 4],
}

/// `2^64`.
pub open spec fn word() -> int {
    0x1_0000_0000_0000_0000
}

/// `2^256`, the first value a `U256` cannot hold.
pub open spec fn u256_bound() -> int {
    word() * word() * word() * word()
}

impl View for U256 {
    type V = int;

    /// The number the four words stand for.
    open spec fn view(&self) -> int {
        self.limbs@[0] + word() * (self.limbs@[1] + word() * (self.limbs@[2] + word() * self.limbs@[3]))
    }
}

/// `r` is the integer square root of `v`: the largest number whose square is at most `v`.
pub open spec fn is_isqrt(v: int, r: int) -> bool {
    0 <= r && r * r <= v < (r + 1) * (r + 1)
}

/// The integer square root of `v`.
pub open spec fn isqrt(v: int) -> int {
    choose|r: int| is_isqrt(v, r)
}

/// The integer square root is unique.
pub proof fn lemma_isqrt_unique(v: int, r: int)
    requires
        is_isqrt(v, r),
    ensures
        isqrt(v) == r,
{
    let k = isqrt(v);
    assert(is_isqrt(v, k));
    if k < r {
        assert((k + 1) * (k + 1) <= r * r) by (nonlinear_arith)
            requires
                0 <= k < r,
        ;
    } else if r < k {
        assert((r + 1) * (r + 1) <= k * k) by (nonlinear_arith)
            requires
                0 <= r < k,
        ;
    }
}

/// `U256::from(u128)`: the same number.
#[verifier::external_body]
pub(crate) fn u256_from_u128(x: u128) -> (r: U256)
    ensures
        r@ == x,
{
    U256 { limbs: primitive_types::U256::from(x).0 }
}

/// `U256::as_u128`: the same number (the call panics above `u128::MAX`).
#[verifier::external_body]
pub(crate) fn u256_as_u128(x: U256) -> (r: u128)
    requires
        x@ <= u128::MAX,
    ensures
        r == x@,
{
    primitive_types::U256(x.limbs).as_u128()
}

/// `U256::checked_mul`: the product, `None` when it reaches `2^256`.
#[verifier::external_body]
pub(crate) fn u256_checked_mul(a: U256, b: U256) -> (r: Option<U256>)
    ensures
        r is Some <==> a@ * b@ < u256_bound(),
        r matches Some(p) ==> p@ == a@ * b@,
{
    match primitive_types::U256(a.limbs).checked_mul(primitive_types::U256(b.limbs)) {
        Some(p) => Some(U256 { limbs: p.0 }),
        None => None,
    }
}

/// `U256::checked_div`: the quotient rounded down, `None` for a zero divisor.
#[verifier::external_body]
pub(crate) fn u256_checked_div(a: U256, b: U256) -> (r: Option<U256>)
    ensures
        r is Some <==> b@ != 0,
        r matches Some(q) ==> q@ == a@ / b@,
{
    match primitive_types::U256(a.limbs).checked_div(primitive_types::U256(b.limbs)) {
        Some(q) => Some(U256 { limbs: q.0 }),
        None => None,
    }
}

/// `U256::checked_sub`: the difference, `None` when it would be negative.
#[verifier::external_body]
pub(crate) fn u256_checked_sub(a: U256, b: U256) -> (r: Option<U256>)
    ensures
        r is Some <==> b@ <= a@,
        r matches Some(d) ==> d@ == a@ - b@,
{
    match primitive_types::U256(a.limbs).checked_sub(primitive_types::U256(b.limbs)) {
        Some(d) => Some(U256 { limbs: d.0 }),
        None => None,
    }
}

/// `U256::integer_sqrt`: the largest number whose square is at most the argument.
#[verifier::external_body]
pub(crate) fn u256_integer_sqrt(a: U256) -> (r: U256)
    ensures
        is_isqrt(a@, r@),
{
    U256 { limbs: primitive_types::U256(a.limbs).integer_sqrt().0 }
}

/// `10^n`.
pub open spec fn pow10(n: nat) -> int
    decreases n,
{
    if n == 0 { 1 } else { 10 * pow10((n - 1) as nat) }
}

pub(crate) proof fn lemma_pow10_grows(i: nat, n: nat)
    requires
        i <= n,
    ensures
        1 <= pow10(i) <= pow10(n),
    decreases n,
{
    if n > 0 {
        if i == n {
            lemma_pow10_grows(0, (n - 1) as nat);
        } else {
            lemma_pow10_grows(i, (n - 1) as nat);
        }
    }
}

/// `10^n` when it fits a `u128`, computed by repeated checked multiplication.
pub fn checked_pow10(n: u64) -> (r: Option<u128>)
    ensures
        r is Some <==> pow10(n as nat) <= u128::MAX,
        r matches Some(p) ==> p == pow10(n as nat),
{
    let mut acc: u128 = 1;
    let mut i: u64 = 0;
    while i < n
        invariant
            i <= n,
            acc == pow10(i as nat),
        decreases n - i,
    {
        match acc.checked_mul(10) {
            Some(next) => {
                acc = next;
                i = i + 1;
            },
            None => {
                proof {
                    lemma_pow10_grows((i + 1) as nat, n as nat);
                }
                return None;
            },
        }
    }
    Some(acc)
}

/// Scales a token amount with `native_decimal` decimals to the pool's system decimals:
/// `val * sys_decimal_value / 10^native_decimal`.
pub open spec fn spec_normalize_decimal(val: int, native_decimal: nat, sys_decimal_value: int) -> int {
    (val * sys_decimal_value) / pow10(native_decimal)
}

/// Scales an amount in system decimals back to `native_decimal` decimals:
/// `val * 10^native_decimal / sys_decimal_value`.
pub open spec fn spec_restore_decimal(val: int, native_decimal: nat, sys_decimal_value: int) -> int {
    (val * pow10(native_decimal)) / sys_decimal_value
}

/// The arithmetic of `restore_decimal` stays within 128 bits and divides by a nonzero value.
pub open spec fn restore_decimal_defined(val: int, native_decimal: nat, sys_decimal_value: int) -> bool {
    &&& pow10(native_decimal) <= u128::MAX
    &&& val * pow10(native_decimal) <= u128::MAX
    &&& sys_decimal_value != 0
}

/// Pool amounts, decimal scaling and the constant-product power.
pub struct Calculator;

impl Calculator {
    /// `val * sys_decimal_value / 10^native_decimal`.
    pub fn normalize_decimal_v2(val: u64, native_decimal: u64, sys_decimal_value: u64) -> (r: u128)
        requires
            pow10(native_decimal as nat) <= u128::MAX,
        ensures
            r == spec_normalize_decimal(val as int, native_decimal as nat, sys_decimal_value as int),
    {
        proof {
            lemma_pow10_grows(0, native_decimal as nat);
            assert(val * sys_decimal_value <= u64::MAX * u64::MAX) by (nonlinear_arith)
                requires
                    val <= u64::MAX,
                    sys_decimal_value <= u64::MAX,
            ;
        }
        let ret_mut = (val as u128) * (sys_decimal_value as u128);
        let p = match checked_pow10(native_decimal) {
            Some(p) => p,
            None => {
                proof {
                    assert(false);
                }
                1
            },
        };
        ret_mut / p
    }

    /// `val * 10^native_decimal / sys_decimal_value`.
    pub fn restore_decimal(val: u128, native_decimal: u64, sys_decimal_value: u64) -> (r: u128)
        requires
            restore_decimal_defined(val as int, native_decimal as nat, sys_decimal_value as int),
        ensures
            r == spec_restore_decimal(val as int, native_decimal as nat, sys_decimal_value as int),
    {
        let p = match checked_pow10(native_decimal) {
            Some(p) => p,
            None => {
                proof {
                    assert(false);
                }
                1
            },
        };
        let ret_mut = val * p;
        ret_mut / (sys_decimal_value as u128)
    }

    /// `last_x * last_y * current_x / current_y`, in 256 bits.
    pub fn calc_x_power(last_x: U256, last_y: U256, current_x: U256, current_y: U256) -> (r: U256)
        requires
            last_x@ * last_y@ < u256_bound(),
            last_x@ * last_y@ * current_x@ < u256_bound(),
            current_y@ != 0,
        ensures
            r@ == (last_x@ * last_y@ * current_x@) / current_y@,
    {
        let xy = match u256_checked_mul(last_x, last_y) {
            Some(v) => v,
            None => {
                proof {
                    assert(false);
                }
                last_x
            },
        };
        let xyx = match u256_checked_mul(xy, current_x) {
            Some(v) => v,
            None => {
                proof {
                    assert(false);
                }
                xy
            },
        };
        match u256_checked_div(xyx, current_y) {
            Some(v) => v,
            None => {
                proof {
                    assert(false);
                }
                xyx
            },
        }
    }

    /// The pool's token amounts minus the profit-and-loss amounts still to be taken; fails
    /// when either amount is below what is still to be taken.
    pub fn calc_total_without_take_pnl_no_orderbook(
        pc_amount: u64,
        coin_amount: u64,
        amm: &AmmInfo,
    ) -> (r: Result<(u64, u64), LockerError>)
        ensures
            pc_amount >= amm.state_data.need_take_pnl_pc && coin_amount >= amm.state_data.need_take_pnl_coin
                ==> r == Ok::<(u64, u64), LockerError>(
                (
                    (pc_amount - amm.state_data.need_take_pnl_pc) as u64,
                    (coin_amount - amm.state_data.need_take_pnl_coin) as u64,
                ),
            ),
            !(pc_amount >= amm.state_data.need_take_pnl_pc && coin_amount
                >= amm.state_data.need_take_pnl_coin) ==> r == Err::<(u64, u64), LockerError>(
                LockerError::Raydium(RaydiumAmmError::CheckedSubOverflow),
            ),
    {
        let total_pc_without_take_pnl = match pc_amount.checked_sub(amm.state_data.need_take_pnl_pc) {
            Some(v) => v,
            None => return Err(LockerError::Raydium(RaydiumAmmError::CheckedSubOverflow)),
        };
        let total_coin_without_take_pnl = match coin_amount.checked_sub(amm.state_data.need_take_pnl_coin) {
            Some(v) => v,
            None => return Err(LockerError::Raydium(RaydiumAmmError::CheckedSubOverflow)),
        };
        Ok((total_pc_without_take_pnl, total_coin_without_take_pnl))
    }
}

} // verus!
