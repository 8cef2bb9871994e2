//! Fee arithmetic of the locker: liquidity fees, referral shares and secondary-token burns,
//! computed in `I80F48` fixed point and settled in whole token units.
use vstd::prelude::*;
use vstd::arithmetic::div_mod::*;
use crate::constants::MAX_BASIS_POINTS;
use crate::error::{LockerError, UncxLpError};
use crate::fixed_point::{
    abs_int, fits_i128, fixed_checked_ceil, fixed_checked_div, fixed_checked_mul, fixed_checked_sub,
    fixed_checked_to_u64, fixed_from_u64, frac_unit, spec_ceil_bits, spec_div_bits, spec_floor_int,
    spec_mul_bits, trunc_div,
};
use crate::state::configuration::FeesConfig;

verus! {

/// How the flat fee of a new lock is paid.
#[derive(Clone, Copy, Debug, PartialEq, Eq, Structural)]
pub enum FeePaymentMethod {
    /// in the native currency
    Native,
    /// by burning the secondary token
    NonNative,
    /// not at all: the locker is whitelisted
    Whitelisted,
}

/// Fee amounts in fixed point (raw `I80F48` bits).
#[derive(Clone, Copy, Debug, PartialEq, Eq, Structural)]
pub struct PreciseSettlement {
    /// amount actually locked
    pub lock_amount: i128,
    /// liquidity fee paid to the dev wallet
    pub lp_fee_amount: i128,
    /// referral share, native or in the secondary token
    pub referral_share_fee: i128,
    /// secondary tokens to burn
    pub secondary_token_burn_amount: i128,
    /// native fee paid to the dev wallet
    pub dev_fee: i128,
}

/// Fee amounts in whole token units.
#[derive(Clone, Copy, Debug, PartialEq, Eq, Structural)]
pub struct Settlement {
    pub lock_amount: u64,
    pub lp_fee_amount: u64,
    pub referral_share_fee: u64,
    pub secondary_token_burn_amount: u64,
    pub dev_fee: u64,
}

/// 100 % in basis points.
pub open spec fn max_bps() -> int {
    MAX_BASIS_POINTS as int
}

/// `amount * fee / 10000` in fixed point, rounded toward zero; `None` when the product
/// overflows. A zero fee gives zero.
pub open spec fn spec_calc_fee(a: int, fee: int) -> Option<int> {
    if fee == 0 {
        Some(0)
    } else if fits_i128(a * fee) {
        Some(trunc_div(a * fee, max_bps()))
    } else {
        None
    }
}

/// `spec_calc_fee` rounded up to a whole unit. A zero fee gives zero.
pub open spec fn spec_calc_fee_ceil(a: int, fee: int) -> Option<int> {
    if fee == 0 {
        Some(0)
    } else {
        match spec_calc_fee(a, fee) {
            Some(q) => if fits_i128(spec_ceil_bits(q)) { Some(spec_ceil_bits(q)) } else { None },
            None => None,
        }
    }
}

/// The difference, when it fits.
pub open spec fn spec_after_cuts(a: int, b: int) -> Option<int> {
    if fits_i128(a - b) { Some(a - b) } else { None }
}

/// The difference rounded up to a whole unit, when it fits.
pub open spec fn spec_after_cuts_ceil(a: int, b: int) -> Option<int> {
    if fits_i128(a - b) && fits_i128(spec_ceil_bits(a - b)) {
        Some(spec_ceil_bits(a - b))
    } else {
        None
    }
}

proof fn lemma_mul_unit(a: int, k: int)
    ensures
        spec_mul_bits(a, k * frac_unit()) == a * k,
{
    assert(a * (k * frac_unit()) == frac_unit() * (a * k)) by (nonlinear_arith);
    lemma_div_multiples_vanish(a * k, frac_unit());
}

proof fn lemma_trunc_div_cancel(x: int, d: int)
    requires
        d > 0,
    ensures
        spec_div_bits(x, d * frac_unit()) == trunc_div(x, d),
        abs_int(trunc_div(x, d)) <= abs_int(x),
{
    let f = frac_unit();
    assert(abs_int(x * f) == f * abs_int(x)) by (nonlinear_arith)
        requires
            f > 0,
    ;
    assert(abs_int(d * f) == f * d) by (nonlinear_arith)
        requires
            f > 0,
            d > 0,
    ;
    lemma_div_multiples_vanish_quotient(f, abs_int(x), d);
    assert(x * f >= 0 <==> x >= 0) by (nonlinear_arith)
        requires
            f > 0,
    ;
    assert(x * f <= 0 <==> x <= 0) by (nonlinear_arith)
        requires
            f > 0,
    ;
    assert(d * f > 0) by (nonlinear_arith)
        requires
            f > 0,
            d > 0,
    ;
    lemma_div_nonincreasing(abs_int(x), d);
    lemma_div_pos_is_pos(abs_int(x), d);
}

/// `amount * fee / 10000` in fixed point (raw bits in, raw bits out).
pub fn calc_fee(amnt: i128, fee: u16) -> (r: Result<i128, LockerError>)
    ensures
        match spec_calc_fee(amnt as int, fee as int) {
            Some(q) => r == Ok::<i128, LockerError>(q as i128),
            None => r == Err::<i128, LockerError>(LockerError::Uncx(UncxLpError::MathError)),
        },
{
    if fee == 0 {
        return Ok(0);
    }
    let fee_fx = fixed_from_u64(fee as u64);
    let max_fx = fixed_from_u64(MAX_BASIS_POINTS as u64);
    proof {
        lemma_mul_unit(amnt as int, fee as int);
    }
    let prod = match fixed_checked_mul(amnt, fee_fx) {
        Some(p) => p,
        None => return Err(LockerError::Uncx(UncxLpError::MathError)),
    };
    proof {
        lemma_trunc_div_cancel(prod as int, max_bps());
    }
    match fixed_checked_div(prod, max_fx) {
        Some(q) => Ok(q),
        None => Err(LockerError::Uncx(UncxLpError::MathError)),
    }
}

/// `calc_fee` rounded up to a whole unit.
pub fn calc_fee_ceil(amnt: i128, fee: u16) -> (r: Result<i128, LockerError>)
    ensures
        match spec_calc_fee_ceil(amnt as int, fee as int) {
            Some(q) => r == Ok::<i128, LockerError>(q as i128),
            None => r == Err::<i128, LockerError>(LockerError::Uncx(UncxLpError::MathError)),
        },
{
    if fee == 0 {
        return Ok(0);
    }
    let q = calc_fee(amnt, fee)?;
    match fixed_checked_ceil(q) {
        Some(c) => Ok(c),
        None => Err(LockerError::Uncx(UncxLpError::MathError)),
    }
}

/// What is left of an amount after the fee costs, rounded up to a whole unit.
pub fn calc_total_after_fee_cuts_ceil(amnt_before_cuts: i128, fee_costs: i128) -> (r: Result<i128, LockerError>)
    ensures
        match spec_after_cuts_ceil(amnt_before_cuts as int, fee_costs as int) {
            Some(q) => r == Ok::<i128, LockerError>(q as i128),
            None => r == Err::<i128, LockerError>(LockerError::Uncx(UncxLpError::MathError)),
        },
{
    let d = match fixed_checked_sub(amnt_before_cuts, fee_costs) {
        Some(d) => d,
        None => return Err(LockerError::Uncx(UncxLpError::MathError)),
    };
    match fixed_checked_ceil(d) {
        Some(c) => Ok(c),
        None => Err(LockerError::Uncx(UncxLpError::MathError)),
    }
}

/// What is left of an amount after the fee costs.
pub fn calc_total_after_fee_cuts(amnt_before_cuts: i128, fee_costs: i128) -> (r: Result<i128, LockerError>)
    ensures
        match spec_after_cuts(amnt_before_cuts as int, fee_costs as int) {
            Some(q) => r == Ok::<i128, LockerError>(q as i128),
            None => r == Err::<i128, LockerError>(LockerError::Uncx(UncxLpError::MathError)),
        },
{
    match fixed_checked_sub(amnt_before_cuts, fee_costs) {
        Some(d) => Ok(d),
        None => Err(LockerError::Uncx(UncxLpError::MathError)),
    }
}

/// The whole-unit part of a fixed-point amount; refuses negative amounts and amounts above
/// `u64::MAX`.
pub fn conv_to_u64(value: i128) -> (r: Result<u64, LockerError>)
    ensures
        0 <= spec_floor_int(value as int) <= u64::MAX ==> r == Ok::<u64, LockerError>(
            spec_floor_int(value as int) as u64,
        ),
        !(0 <= spec_floor_int(value as int) <= u64::MAX) ==> r == Err::<u64, LockerError>(
            LockerError::Uncx(UncxLpError::MathError),
        ),
{
    match fixed_checked_to_u64(value) {
        Some(n) => Ok(n),
        None => Err(LockerError::Uncx(UncxLpError::MathError)),
    }
}

/// The flat-fee part of a lock, `(dev_fee, referral_share_fee, secondary_token_burn_amount)`.
pub open spec fn spec_flat_fees(cfg: FeesConfig, referral: bool, method: FeePaymentMethod) -> Option<(int, int, int)> {
    let f = frac_unit();
    match method {
        FeePaymentMethod::Native => if !referral {
            Some((cfg.native_fee * f, 0, 0))
        } else {
            match spec_calc_fee(cfg.native_fee * f, max_bps() - cfg.referral_discount_bps) {
                Some(x) => match spec_calc_fee(x, cfg.referral_share_bps as int) {
                    Some(share) => match spec_after_cuts_ceil(x, share) {
                        Some(dev) => Some((dev, share, 0)),
                        None => None,
                    },
                    None => None,
                },
                None => None,
            }
        },
        FeePaymentMethod::NonNative => if !referral {
            Some((0, 0, cfg.secondary_token_fee * f))
        } else {
            match spec_calc_fee(cfg.secondary_token_fee * f, max_bps() - cfg.referral_discount_bps) {
                Some(y) => match spec_calc_fee(y, cfg.referral_share_bps as int) {
                    Some(share) => match spec_after_cuts_ceil(y, share) {
                        Some(burn) => Some((0, share, burn)),
                        None => None,
                    },
                    None => None,
                },
                None => None,
            }
        },
        FeePaymentMethod::Whitelisted => Some((0, 0, 0)),
    }
}

/// The liquidity fee of a lock of `amount` units; the secondary-token discount applies when the
/// flat fee is paid by burning.
pub open spec fn spec_lp_fee(cfg: FeesConfig, amount: int, method: FeePaymentMethod) -> Option<int> {
    let a = amount * frac_unit();
    match method {
        FeePaymentMethod::NonNative => match spec_calc_fee(a, cfg.liquidity_fee_bps as int) {
            Some(x) => spec_calc_fee_ceil(x, max_bps() - cfg.secondary_token_discount_bps),
            None => None,
        },
        _ => spec_calc_fee_ceil(a, cfg.liquidity_fee_bps as int),
    }
}

/// All fee amounts of a lock in fixed point; `None` when the arithmetic overflows.
pub open spec fn spec_precise_settlement(
    cfg: FeesConfig,
    amount: u64,
    referral: bool,
    method: FeePaymentMethod,
) -> Option<PreciseSettlement> {
    match spec_flat_fees(cfg, referral, method) {
        Some(flat) => match spec_lp_fee(cfg, amount as int, method) {
            Some(lp) => match spec_after_cuts(amount * frac_unit(), lp) {
                Some(lock) => Some(PreciseSettlement {
                    lock_amount: lock as i128,
                    lp_fee_amount: lp as i128,
                    referral_share_fee: flat.1 as i128,
                    secondary_token_burn_amount: flat.2 as i128,
                    dev_fee: flat.0 as i128,
                }),
                None => None,
            },
            None => None,
        },
        None => None,
    }
}

/// The whole-unit part of a fixed-point amount, when it is a valid `u64`.
pub open spec fn spec_to_u64(bits: i128) -> Option<u64> {
    if 0 <= spec_floor_int(bits as int) <= u64::MAX {
        Some(spec_floor_int(bits as int) as u64)
    } else {
        None
    }
}

/// Whole-unit settlement of fixed-point amounts; `None` when one does not fit a `u64`.
pub open spec fn spec_settle(p: PreciseSettlement) -> Option<Settlement> {
    match (
        spec_to_u64(p.lock_amount),
        spec_to_u64(p.lp_fee_amount),
        spec_to_u64(p.referral_share_fee),
        spec_to_u64(p.secondary_token_burn_amount),
        spec_to_u64(p.dev_fee),
    ) {
        (Some(l), Some(lp), Some(r), Some(b), Some(d)) => Some(Settlement {
            lock_amount: l,
            lp_fee_amount: lp,
            referral_share_fee: r,
            secondary_token_burn_amount: b,
            dev_fee: d,
        }),
        _ => None,
    }
}

/// All fee amounts of a lock in whole units; `None` when the arithmetic fails.
pub open spec fn spec_settlement(
    cfg: FeesConfig,
    amount: u64,
    referral: bool,
    method: FeePaymentMethod,
) -> Option<Settlement> {
    match spec_precise_settlement(cfg, amount, referral, method) {
        Some(p) => spec_settle(p),
        None => None,
    }
}

/// The discounts that the chosen path subtracts from 100 % are themselves at most 100 %
/// (otherwise the subtraction overflows).
pub open spec fn settlement_defined(cfg: FeesConfig, referral: bool, method: FeePaymentMethod) -> bool {
    match method {
        FeePaymentMethod::Native => referral ==> cfg.referral_discount_bps <= MAX_BASIS_POINTS,
        FeePaymentMethod::NonNative => cfg.secondary_token_discount_bps <= MAX_BASIS_POINTS && (referral
            ==> cfg.referral_discount_bps <= MAX_BASIS_POINTS),
        FeePaymentMethod::Whitelisted => true,
    }
}

/// `ceil(amount * fee_bps / 10000)`: a basis-point fee on whole units, rounded up to a unit.
pub open spec fn spec_fee_units(amount: int, fee_bps: int) -> int {
    (amount * fee_bps + max_bps() - 1) / max_bps()
}

/// The liquidity fee on `amount` whole units in whole units: the fee rounded up to a unit, then
/// converted; `None` when the arithmetic fails.
pub open spec fn spec_liquidity_fee(amount: u64, fee_bps: u16) -> Option<u64> {
    match spec_calc_fee_ceil(amount * frac_unit(), fee_bps as int) {
        Some(q) => spec_to_u64(q as i128),
        None => None,
    }
}

/// The liquidity fee charged when a lock is extended or topped up, in whole units.
pub fn liquidity_fee_units(amount: u64, fee_bps: u16) -> (r: Result<u64, LockerError>)
    ensures
        match spec_liquidity_fee(amount, fee_bps) {
            Some(fee) => r == Ok::<u64, LockerError>(fee),
            None => r == Err::<u64, LockerError>(LockerError::Uncx(UncxLpError::MathError)),
        },
{
    let precise = calc_fee_ceil(fixed_from_u64(amount), fee_bps)?;
    conv_to_u64(precise)
}

impl Settlement {
    /// Converts every fixed-point amount to whole units (rounding toward minus infinity).
    pub fn try_from(value: PreciseSettlement) -> (r: Result<Settlement, LockerError>)
        ensures
            match spec_settle(value) {
                Some(s) => r == Ok::<Settlement, LockerError>(s),
                None => r == Err::<Settlement, LockerError>(LockerError::Uncx(UncxLpError::MathError)),
            },
    {
        let lock_amount = conv_to_u64(value.lock_amount)?;
        let lp_fee_amount = conv_to_u64(value.lp_fee_amount)?;
        let referral_share_fee = conv_to_u64(value.referral_share_fee)?;
        let secondary_token_burn_amount = conv_to_u64(value.secondary_token_burn_amount)?;
        let dev_fee = conv_to_u64(value.dev_fee)?;
        Ok(Settlement { lock_amount, lp_fee_amount, referral_share_fee, secondary_token_burn_amount, dev_fee })
    }
}

/// The fee logic of a new lock: what goes to the dev wallet, to the referrer, what is burnt,
/// what the liquidity fee is and what is actually locked, in fixed point.
pub fn calc_precise_settlement(
    fee_config: &FeesConfig,
    lock_amount: u64,
    has_referral: bool,
    fee_payment_method: FeePaymentMethod,
) -> (r: Result<PreciseSettlement, LockerError>)
    requires
        settlement_defined(*fee_config, has_referral, fee_payment_method),
    ensures
        match spec_precise_settlement(*fee_config, lock_amount, has_referral, fee_payment_method) {
            Some(p) => r == Ok::<PreciseSettlement, LockerError>(p),
            None => r == Err::<PreciseSettlement, LockerError>(LockerError::Uncx(UncxLpError::MathError)),
        },
{
    let amount_fx = fixed_from_u64(lock_amount);
    let mut dev_fee: i128 = 0;
    let mut referral_share_fee: i128 = 0;
    let mut secondary_token_burn_amount: i128 = 0;
    let lp_fee_amount: i128;
    match (has_referral, fee_payment_method) {
        (false, FeePaymentMethod::Native) => {
            dev_fee = fixed_from_u64(fee_config.native_fee);
            lp_fee_amount = calc_fee_ceil(amount_fx, fee_config.liquidity_fee_bps)?;
        },
        (true, FeePaymentMethod::Native) => {
            let native = fixed_from_u64(fee_config.native_fee);
            let dev_fee_after_referral_cut = calc_fee(
                native,
                MAX_BASIS_POINTS - fee_config.referral_discount_bps,
            )?;
            referral_share_fee = calc_fee(dev_fee_after_referral_cut, fee_config.referral_share_bps)?;
            dev_fee = calc_total_after_fee_cuts_ceil(dev_fee_after_referral_cut, referral_share_fee)?;
            lp_fee_amount = calc_fee_ceil(amount_fx, fee_config.liquidity_fee_bps)?;
        },
        (false, FeePaymentMethod::NonNative) => {
            let lp_fee = calc_fee(amount_fx, fee_config.liquidity_fee_bps)?;
            lp_fee_amount = calc_fee_ceil(lp_fee, MAX_BASIS_POINTS - fee_config.secondary_token_discount_bps)?;
            secondary_token_burn_amount = fixed_from_u64(fee_config.secondary_token_fee);
        },
        (true, FeePaymentMethod::NonNative) => {
            let lp_fee = calc_fee(amount_fx, fee_config.liquidity_fee_bps)?;
            lp_fee_amount = calc_fee_ceil(lp_fee, MAX_BASIS_POINTS - fee_config.secondary_token_discount_bps)?;
            let secondary = fixed_from_u64(fee_config.secondary_token_fee);
            let precise_burn_amount_with_referral = calc_fee(
                secondary,
                MAX_BASIS_POINTS - fee_config.referral_discount_bps,
            )?;
            referral_share_fee = calc_fee(precise_burn_amount_with_referral, fee_config.referral_share_bps)?;
            secondary_token_burn_amount = calc_total_after_fee_cuts_ceil(
                precise_burn_amount_with_referral,
                referral_share_fee,
            )?;
        },
        (_, FeePaymentMethod::Whitelisted) => {
            lp_fee_amount = calc_fee_ceil(amount_fx, fee_config.liquidity_fee_bps)?;
        },
    }
    let lock_amount_fx = calc_total_after_fee_cuts(amount_fx, lp_fee_amount)?;
    Ok(PreciseSettlement {
        lock_amount: lock_amount_fx,
        lp_fee_amount,
        referral_share_fee,
        secondary_token_burn_amount,
        dev_fee,
    })
}

/// The fee logic of a new lock in whole units.
pub fn calc_settlement(
    fee_config: &FeesConfig,
    lock_amount: u64,
    has_referral: bool,
    fee_payment_method: FeePaymentMethod,
) -> (r: Result<Settlement, LockerError>)
    requires
        settlement_defined(*fee_config, has_referral, fee_payment_method),
    ensures
        match spec_settlement(*fee_config, lock_amount, has_referral, fee_payment_method) {
            Some(s) => r == Ok::<Settlement, LockerError>(s),
            None => r == Err::<Settlement, LockerError>(LockerError::Uncx(UncxLpError::MathError)),
        },
{
    let precise = calc_precise_settlement(fee_config, lock_amount, has_referral, fee_payment_method)?;
    Settlement::try_from(precise)
}

} // verus!
