//! Properties of the fee logic of a new lock.
use vstd::prelude::*;
use vstd::arithmetic::div_mod::*;
use vstd::arithmetic::mul::*;
use crate::fees::{
    Settlement, max_bps, spec_after_cuts_ceil, spec_calc_fee, spec_flat_fees,
    spec_fee_units, spec_liquidity_fee, spec_lp_fee, spec_precise_settlement, spec_settlement, spec_to_u64,
    FeePaymentMethod, spec_calc_fee_ceil,
};
use crate::fixed_point::{fits_i128, frac_unit, spec_ceil_bits, spec_floor_int, trunc_div};
use crate::state::configuration::{valid_bps, valid_fees_config, FeesConfig};

verus! {

/// Largest fixed-point amount that converts back to a `u64`: `u64::MAX` whole units.
pub open spec fn max_amount_bits() -> int {
    u64::MAX * frac_unit()
}

proof fn lemma_fee_in_range(a: int, fee: int)
    requires
        0 <= a <= max_amount_bits(),
        0 <= fee <= max_bps(),
    ensures
        spec_calc_fee(a, fee) == Some((a * fee) / max_bps()),
        0 <= (a * fee) / max_bps() <= a,
{
    let d = max_bps();
    assert(0 <= a * fee <= a * d) by (nonlinear_arith)
        requires
            0 <= a,
            0 <= fee <= d,
    ;
    assert(a * d <= max_amount_bits() * d) by (nonlinear_arith)
        requires
            0 <= a <= max_amount_bits(),
            d > 0,
    ;
    assert(fits_i128(a * fee));
    lemma_div_is_ordered(a * fee, a * d, d);
    lemma_div_multiples_vanish(a, d);
    assert(a * d == d * a) by (nonlinear_arith);
    lemma_div_pos_is_pos(a * fee, d);
    if fee == 0 {
        assert(a * fee == 0);
    }
}

proof fn lemma_ceil_in_range(q: int)
    requires
        0 <= q <= max_amount_bits(),
    ensures
        fits_i128(spec_ceil_bits(q)),
        spec_ceil_bits(q) == ((q + frac_unit() - 1) / frac_unit()) * frac_unit(),
        0 <= (q + frac_unit() - 1) / frac_unit() <= u64::MAX,
        q <= spec_ceil_bits(q),
{
    let f = frac_unit();
    let c = (q + f - 1) / f;
    lemma_fundamental_div_mod(q + f - 1, f);
    lemma_mod_pos_bound(q + f - 1, f);
    assert(c * f <= q + f - 1 < c * f + f) by (nonlinear_arith)
        requires
            q + f - 1 == f * c + (q + f - 1) % f,
            0 <= (q + f - 1) % f < f,
    ;
    assert(c <= u64::MAX) by (nonlinear_arith)
        requires
            c * f <= q + f - 1,
            q <= u64::MAX * f,
            f > 0,
    ;
    assert(c >= 0) by (nonlinear_arith)
        requires
            q + f - 1 < c * f + f,
            q >= 0,
            f > 0,
    ;
    assert(c * f <= u64::MAX * f) by (nonlinear_arith)
        requires
            0 <= c <= u64::MAX,
            f > 0,
    ;
}

proof fn lemma_floor_of_multiple(c: int)
    ensures
        spec_floor_int(c * frac_unit()) == c,
{
    assert(c * frac_unit() == frac_unit() * c) by (nonlinear_arith);
    lemma_div_multiples_vanish(c, frac_unit());
}

/// Ceiling of `y * 2^48 / 10000` in whole units is the ceiling of `y / 10000`.
proof fn lemma_ceil_of_fixed_fee(y: int)
    requires
        y >= 0,
    ensures
        (((y * frac_unit()) / max_bps()) + frac_unit() - 1) / frac_unit() == (y + max_bps() - 1)
            / max_bps(),
{
    let f = frac_unit();
    let d = max_bps();
    let k = y / d;
    let r = y % d;
    lemma_fundamental_div_mod(y, d);
    lemma_mod_pos_bound(y, d);
    let s = (r * f) / d;
    assert(y * f == d * (k * f) + r * f) by (nonlinear_arith)
        requires
            y == d * k + r,
    ;
    lemma_div_pos_is_pos(r * f, d);
    assert(0 <= r * f < d * f) by (nonlinear_arith)
        requires
            0 <= r < d,
            f > 0,
    ;
    lemma_multiply_divide_lt(r * f, d, f);
    assert(s < f);
    lemma_fundamental_div_mod(r * f, d);
    lemma_mod_pos_bound(r * f, d);
    assert((y * f) / d == k * f + s) by {
        lemma_fundamental_div_mod_converse(y * f, d, k * f + s, (r * f) % d);
        assert(y * f == d * (k * f + s) + (r * f) % d) by (nonlinear_arith)
            requires
                y * f == d * (k * f) + r * f,
                r * f == d * s + (r * f) % d,
        ;
    }
    if r == 0 {
        assert(s == 0) by {
            assert(r * f == 0);
        }
        assert((k * f + f - 1) / f == k) by {
            lemma_fundamental_div_mod_converse(k * f + f - 1, f, k, f - 1);
            assert(k * f + f - 1 == f * k + (f - 1)) by (nonlinear_arith);
        }
        assert((y + d - 1) / d == k) by {
            lemma_fundamental_div_mod_converse(y + d - 1, d, k, d - 1);
        }
    } else {
        assert(s >= 1) by {
            assert(r * f >= d) by (nonlinear_arith)
                requires
                    r >= 1,
                    f >= d,
                    d > 0,
            ;
            lemma_div_is_ordered(d, r * f, d);
            lemma_div_by_self(d);
        }
        assert((k * f + s + f - 1) / f == k + 1) by {
            lemma_fundamental_div_mod_converse(k * f + s + f - 1, f, k + 1, s - 1);
            assert(k * f + s + f - 1 == f * (k + 1) + (s - 1)) by (nonlinear_arith);
        }
        assert((y + d - 1) / d == k + 1) by {
            lemma_fundamental_div_mod_converse(y + d - 1, d, k + 1, r - 1);
            assert(y + d - 1 == d * (k + 1) + (r - 1)) by (nonlinear_arith)
                requires
                    y == d * k + r,
            ;
        }
    }
}

proof fn lemma_ceil_le(q: int, m: int)
    requires
        0 <= q <= m * frac_unit(),
        0 <= m,
    ensures
        (q + frac_unit() - 1) / frac_unit() <= m,
{
    let f = frac_unit();
    lemma_fundamental_div_mod(q + f - 1, f);
    lemma_mod_pos_bound(q + f - 1, f);
    let c = (q + f - 1) / f;
    assert(c <= m) by (nonlinear_arith)
        requires
            q + f - 1 == f * c + (q + f - 1) % f,
            0 <= (q + f - 1) % f,
            q <= m * f,
            f > 0,
    ;
}

proof fn lemma_to_u64_of_whole(c: int)
    requires
        0 <= c <= u64::MAX,
    ensures
        fits_i128(c * frac_unit()),
        spec_to_u64((c * frac_unit()) as i128) == Some(c as u64),
{
    assert(0 <= c * frac_unit() <= max_amount_bits()) by (nonlinear_arith)
        requires
            0 <= c <= u64::MAX,
    ;
    lemma_floor_of_multiple(c);
}

proof fn lemma_floor_in_range(b: int)
    requires
        0 <= b <= max_amount_bits(),
    ensures
        fits_i128(b),
        0 <= spec_floor_int(b) <= u64::MAX,
        spec_to_u64(b as i128) == Some(spec_floor_int(b) as u64),
        spec_floor_int(b) * frac_unit() <= b,
{
    let f = frac_unit();
    lemma_div_pos_is_pos(b, f);
    lemma_div_is_ordered(b, max_amount_bits(), f);
    lemma_floor_of_multiple(u64::MAX as int);
    lemma_fundamental_div_mod(b, f);
    lemma_mod_pos_bound(b, f);
    assert((b / f) * f <= b) by (nonlinear_arith)
        requires
            b == f * (b / f) + b % f,
            0 <= b % f,
    ;
    assert(spec_floor_int(b) == b / f);
}

/// The liquidity fee of a valid configuration is a whole number of units, at most the amount;
/// unless the flat fee is paid by burning, it is `ceil(amount * liquidity_fee_bps / 10000)`.
proof fn lemma_lp_fee_valid(cfg: FeesConfig, amount: u64, method: FeePaymentMethod) -> (c: int)
    requires
        valid_fees_config(cfg),
    ensures
        spec_lp_fee(cfg, amount as int, method) == Some(c * frac_unit()),
        0 <= c <= amount,
        method != FeePaymentMethod::NonNative ==> c == (amount * cfg.liquidity_fee_bps + max_bps() - 1)
            / max_bps(),
        method == FeePaymentMethod::NonNative ==> c == (((((amount * frac_unit() * cfg.liquidity_fee_bps) / max_bps()) * (max_bps()
            - cfg.secondary_token_discount_bps)) / max_bps()) + frac_unit() - 1) / frac_unit(),
{
    let f = frac_unit();
    let d = max_bps();
    let lf = cfg.liquidity_fee_bps as int;
    let a = amount * f;
    assert(0 <= a <= max_amount_bits()) by (nonlinear_arith)
        requires
            a == amount * f,
            0 <= amount <= u64::MAX,
            f > 0,
            max_amount_bits() == u64::MAX * f,
    ;
    lemma_fee_in_range(a, lf);
    let q = (a * lf) / d;
    if method != FeePaymentMethod::NonNative {
        let y = amount * lf;
        assert(0 <= y <= amount * d) by (nonlinear_arith)
            requires
                y == amount * lf,
                0 <= amount,
                0 <= lf <= d,
        ;
        lemma_fundamental_div_mod(y + d - 1, d);
        lemma_mod_pos_bound(y + d - 1, d);
        let cy = (y + d - 1) / d;
        assert(0 <= cy <= amount) by (nonlinear_arith)
            requires
                y + d - 1 == d * cy + (y + d - 1) % d,
                0 <= (y + d - 1) % d < d,
                0 <= y <= amount * d,
                d > 0,
        ;
        if lf == 0 {
            assert(y == 0) by (nonlinear_arith)
                requires
                    y == amount * lf,
                    lf == 0,
            ;
            assert(cy == 0) by {
                lemma_fundamental_div_mod_converse(d - 1, d, 0, d - 1);
            }
            assert(0 * f == 0);
            cy
        } else {
            lemma_ceil_in_range(q);
            assert(a * lf == y * f) by (nonlinear_arith)
                requires
                    a == amount * f,
                    y == amount * lf,
            ;
            lemma_ceil_of_fixed_fee(y);
            cy
        }
    } else {
        let sd = max_bps() - cfg.secondary_token_discount_bps;
        assert(0 <= q <= max_amount_bits());
        lemma_fee_in_range(q, sd);
        if sd == 0 {
            assert(0 * f == 0);
            0
        } else {
            let q2 = (q * sd) / d;
            lemma_ceil_in_range(q2);
            let c = (q2 + f - 1) / f;
            lemma_ceil_le(q2, amount as int);
            c
        }
    }
}

/// The flat fees of a valid configuration, in whole units, as `(dev_fee, referral_share_fee,
/// secondary_token_burn_amount)`.
proof fn lemma_flat_fees_valid(cfg: FeesConfig, referral: bool, method: FeePaymentMethod) -> (r: (int, int, int))
    requires
        valid_fees_config(cfg),
    ensures
        spec_flat_fees(cfg, referral, method) matches Some(flat) && {
            &&& fits_i128(flat.0) && fits_i128(flat.1) && fits_i128(flat.2)
            &&& spec_to_u64(flat.0 as i128) == Some(r.0 as u64)
            &&& spec_to_u64(flat.1 as i128) == Some(r.1 as u64)
            &&& spec_to_u64(flat.2 as i128) == Some(r.2 as u64)
        },
        0 <= r.0 <= u64::MAX,
        0 <= r.1 <= u64::MAX,
        0 <= r.2 <= u64::MAX,
        method == FeePaymentMethod::Whitelisted ==> r == (0int, 0int, 0int),
        method == FeePaymentMethod::Native && !referral ==> r == (cfg.native_fee as int, 0int, 0int),
        method == FeePaymentMethod::NonNative && !referral ==> r == (0int, 0int, cfg.secondary_token_fee as int),
        method == FeePaymentMethod::Native && referral ==> r.2 == 0 && r.0 + r.1 <= cfg.native_fee,
        method == FeePaymentMethod::NonNative && referral ==> r.0 == 0 && r.2 + r.1 <= cfg.secondary_token_fee,
        referral && method != FeePaymentMethod::Whitelisted ==> {
            let n: int = if method == FeePaymentMethod::Native {
                cfg.native_fee as int
            } else {
                cfg.secondary_token_fee as int
            };
            let x = (n * frac_unit() * (max_bps() - cfg.referral_discount_bps)) / max_bps();
            let share = (x * cfg.referral_share_bps) / max_bps();
            let rest = (x - share + frac_unit() - 1) / frac_unit();
            &&& r.1 == share / frac_unit()
            &&& method == FeePaymentMethod::Native ==> r.0 == rest
            &&& method == FeePaymentMethod::NonNative ==> r.2 == rest
        },
{
    let f = frac_unit();
    let d = max_bps();
    lemma_to_u64_of_whole(0);
    assert(0 * f == 0);
    match method {
        FeePaymentMethod::Whitelisted => (0, 0, 0),
        _ => {
            let n: int = if method == FeePaymentMethod::Native {
                cfg.native_fee as int
            } else {
                cfg.secondary_token_fee as int
            };
            lemma_to_u64_of_whole(n);
            if !referral {
                if method == FeePaymentMethod::Native { (n, 0, 0) } else { (0, 0, n) }
            } else {
                let nb = n * f;
                assert(0 <= nb <= max_amount_bits()) by (nonlinear_arith)
                    requires
                        nb == n * f,
                        0 <= n <= u64::MAX,
                        f > 0,
                        max_amount_bits() == u64::MAX * f,
                ;
                let disc = max_bps() - cfg.referral_discount_bps;
                lemma_fee_in_range(nb, disc);
                let x = (nb * disc) / d;
                lemma_fee_in_range(x, cfg.referral_share_bps as int);
                let share = (x * cfg.referral_share_bps) / d;
                lemma_floor_in_range(share);
                let sf = spec_floor_int(share);
                let rest = x - share;
                assert(0 <= rest <= (n - sf) * f) by (nonlinear_arith)
                    requires
                        rest == x - share,
                        0 <= share <= x,
                        x <= nb,
                        nb == n * f,
                        sf * f <= share,
                ;
                assert(0 <= n - sf) by (nonlinear_arith)
                    requires
                        0 <= rest <= (n - sf) * f,
                        f > 0,
                        sf * f <= share,
                        share <= x,
                        x <= n * f,
                ;
                assert((n - sf) * f <= max_amount_bits()) by (nonlinear_arith)
                    requires
                        0 <= n - sf <= u64::MAX,
                        f > 0,
                        max_amount_bits() == u64::MAX * f,
                ;
                lemma_ceil_in_range(rest);
                let c = (rest + f - 1) / f;
                lemma_ceil_le(rest, n - sf);
                lemma_to_u64_of_whole(c);
                assert(spec_after_cuts_ceil(x, share) == Some(c * f));
                if method == FeePaymentMethod::Native { (c, sf, 0) } else { (0, sf, c) }
            }
        },
    }
}

/// The whole-unit settlement of a valid configuration, characterized.
proof fn lemma_settlement_valid(cfg: FeesConfig, amount: u64, referral: bool, method: FeePaymentMethod)
    -> (r: (int, (int, int, int)))
    requires
        valid_fees_config(cfg),
    ensures
        spec_settlement(cfg, amount, referral, method) == Some(Settlement {
            lock_amount: (amount - r.0) as u64,
            lp_fee_amount: r.0 as u64,
            referral_share_fee: r.1.1 as u64,
            secondary_token_burn_amount: r.1.2 as u64,
            dev_fee: r.1.0 as u64,
        }),
        0 <= r.0 <= amount,
        method != FeePaymentMethod::NonNative ==> r.0 == (amount * cfg.liquidity_fee_bps + max_bps() - 1)
            / max_bps(),
        method == FeePaymentMethod::NonNative ==> r.0 == (((((amount * frac_unit() * cfg.liquidity_fee_bps) / max_bps()) * (max_bps()
            - cfg.secondary_token_discount_bps)) / max_bps()) + frac_unit() - 1) / frac_unit(),
        0 <= r.1.0 <= u64::MAX,
        0 <= r.1.1 <= u64::MAX,
        0 <= r.1.2 <= u64::MAX,
        method == FeePaymentMethod::Whitelisted ==> r.1 == (0int, 0int, 0int),
        method == FeePaymentMethod::Native && !referral ==> r.1 == (cfg.native_fee as int, 0int, 0int),
        method == FeePaymentMethod::NonNative && !referral ==> r.1 == (0int, 0int, cfg.secondary_token_fee as int),
        method == FeePaymentMethod::Native && referral ==> r.1.2 == 0 && r.1.0 + r.1.1 <= cfg.native_fee,
        method == FeePaymentMethod::NonNative && referral ==> r.1.0 == 0 && r.1.2 + r.1.1 <= cfg.secondary_token_fee,
{
    let f = frac_unit();
    let c = lemma_lp_fee_valid(cfg, amount, method);
    let flat = lemma_flat_fees_valid(cfg, referral, method);
    let a = amount * f;
    assert(a - c * f == (amount - c) * f) by (nonlinear_arith)
        requires
            a == amount * f,
    ;
    lemma_to_u64_of_whole(amount - c);
    lemma_to_u64_of_whole(c);
    assert(fits_i128(a - c * f));
    (c, flat)
}

/// A valid fee configuration never makes the fee arithmetic of a new lock fail: every amount,
/// with or without referral and whatever the payment method, gets a settlement.
pub proof fn lemma_settlement_total_for_valid_config(
    cfg: FeesConfig,
    amount: u64,
    referral: bool,
    method: FeePaymentMethod,
)
    requires
        valid_fees_config(cfg),
    ensures
        spec_settlement(cfg, amount, referral, method) is Some,
{
    lemma_settlement_valid(cfg, amount, referral, method);
}

/// The settled lock amount and liquidity fee add up to the amount the user locks: no token of it
/// is lost or created by the fee arithmetic.
pub proof fn lemma_settlement_conserves_lock_amount(
    cfg: FeesConfig,
    amount: u64,
    referral: bool,
    method: FeePaymentMethod,
)
    requires
        spec_settlement(cfg, amount, referral, method) is Some,
    ensures
        spec_settlement(cfg, amount, referral, method)->0.lock_amount + spec_settlement(
            cfg,
            amount,
            referral,
            method,
        )->0.lp_fee_amount == amount,
{
    let f = frac_unit();
    let p = spec_precise_settlement(cfg, amount, referral, method)->0;
    let lp = spec_lp_fee(cfg, amount as int, method)->0;
    let c: int = if lp == 0 {
        0
    } else {
        let q: int = match method {
            FeePaymentMethod::NonNative => {
                let x = spec_calc_fee(amount * f, cfg.liquidity_fee_bps as int)->0;
                spec_calc_fee(x, max_bps() - cfg.secondary_token_discount_bps)->0
            },
            _ => spec_calc_fee(amount * f, cfg.liquidity_fee_bps as int)->0,
        };
        (q + f - 1) / f
    };
    assert(lp == c * f);
    lemma_floor_of_multiple(c);
    lemma_floor_of_multiple(amount - c);
    assert(amount * f - c * f == (amount - c) * f) by (nonlinear_arith);
    assert(p.lock_amount == amount * f - c * f);
}

/// Rounding a fixed-point amount up to a whole unit is monotone.
proof fn lemma_ceil_bits_mono(q1: int, q2: int)
    requires
        q1 <= q2,
    ensures
        spec_ceil_bits(q1) <= spec_ceil_bits(q2),
{
    let f = frac_unit();
    lemma_div_is_ordered(q1 + f - 1, q2 + f - 1, f);
    lemma_mul_inequality((q1 + f - 1) / f, (q2 + f - 1) / f, f);
}

/// A whole amount is its own ceiling.
proof fn lemma_ceil_bits_of_whole(c: int)
    ensures
        spec_ceil_bits(c * frac_unit()) == c * frac_unit(),
{
    let f = frac_unit();
    lemma_fundamental_div_mod_converse(c * f + f - 1, f, c, f - 1);
}

/// For every fixed-point amount from zero up to `u64::MAX` whole units and every fee of at most
/// 100 %, the fee rounded up to a whole unit never fails: it is a whole number of units, at least
/// the unrounded fee and less than one unit above it, and at most the amount rounded up to a whole
/// unit. A zero fee gives zero. On a whole amount of `c` units it is exactly
/// `ceil(c * fee / 10000)` units, never more than the amount. (The rounding is applied to the fee
/// as truncated to 48 fraction bits, so on an amount with a fraction it can fall below the ceiling
/// of the exact product.)
pub proof fn lemma_calc_fee_ceil_bounds(a: int, fee: int)
    requires
        0 <= a <= max_amount_bits(),
        0 <= fee <= max_bps(),
    ensures
        spec_calc_fee(a, fee) matches Some(q) && spec_calc_fee_ceil(a, fee) matches Some(r) && {
            &&& r % frac_unit() == 0
            &&& 0 <= q <= r < q + frac_unit()
            &&& r <= spec_ceil_bits(a)
            &&& fee == 0 ==> r == 0
            &&& a % frac_unit() == 0 ==> r == spec_fee_units(a / frac_unit(), fee) * frac_unit() && r <= a
        },
{
    let f = frac_unit();
    let d = max_bps();
    lemma_ceil_in_range(a);
    lemma_fundamental_div_mod(a, f);
    lemma_mod_pos_bound(a, f);
    if a % f == 0 {
        assert(a == (a / f) * f) by (nonlinear_arith)
            requires
                a == f * (a / f) + a % f,
                a % f == 0,
        ;
        lemma_ceil_bits_of_whole(a / f);
    }
    if fee == 0 {
        assert(spec_ceil_bits(a) >= 0) by {
            lemma_div_pos_is_pos(a + f - 1, f);
            lemma_mul_inequality(0, (a + f - 1) / f, f);
        }
        if a % f == 0 {
            assert(a / f * fee == 0);
            assert(spec_fee_units(a / f, fee) == 0);
            lemma_div_pos_is_pos(a, f);
        }
    } else {
        lemma_fee_in_range(a, fee);
        let q = (a * fee) / d;
        assert(trunc_div(a * fee, d) == q);
        lemma_ceil_in_range(q);
        let c = (q + f - 1) / f;
        lemma_fundamental_div_mod(q + f - 1, f);
        lemma_mod_pos_bound(q + f - 1, f);
        assert(c * f < q + f) by (nonlinear_arith)
            requires
                q + f - 1 == f * c + (q + f - 1) % f,
                0 <= (q + f - 1) % f,
        ;
        lemma_mod_multiples_basic(c, f);
        lemma_ceil_bits_mono(q, a);
        if a % f == 0 {
            let w = a / f;
            assert(a * fee == (w * fee) * f) by (nonlinear_arith)
                requires
                    a == w * f,
            ;
            assert(w * fee >= 0) by (nonlinear_arith)
                requires
                    w >= 0,
                    fee >= 0,
            ;
            lemma_div_pos_is_pos(a, f);
            lemma_ceil_of_fixed_fee(w * fee);
            assert(c == spec_fee_units(w, fee));
        }
    }
}

/// The fee rounded up to a whole unit grows with the amount.
pub proof fn lemma_calc_fee_ceil_monotone(a1: int, a2: int, fee: int)
    requires
        0 <= a1 <= a2 <= max_amount_bits(),
        0 <= fee <= max_bps(),
    ensures
        spec_calc_fee_ceil(a1, fee) matches Some(r1) && spec_calc_fee_ceil(a2, fee) matches Some(r2)
            && r1 <= r2,
{
    lemma_calc_fee_ceil_bounds(a1, fee);
    lemma_calc_fee_ceil_bounds(a2, fee);
    if fee != 0 {
        let d = max_bps();
        lemma_fee_in_range(a1, fee);
        lemma_fee_in_range(a2, fee);
        lemma_mul_inequality(a1, a2, fee);
        lemma_div_is_ordered(a1 * fee, a2 * fee, d);
        lemma_ceil_bits_mono((a1 * fee) / d, (a2 * fee) / d);
    }
}

/// With a referral, the flat fee is first discounted by `referral_discount_bps`; the referrer
/// gets `referral_share_bps` of the discounted fee, rounded down to a whole unit, and the dev
/// wallet (native payment) or the burn (payment in the secondary token) gets the rest of the
/// discounted fee, rounded up to a whole unit. Amounts are in 48-bit fixed point before
/// rounding: with `F = 2^48`, the discounted fee is `x = floor(fee * F * (10000 -
/// referral_discount_bps) / 10000)` and the share `floor(x * referral_share_bps / 10000)`.
pub proof fn lemma_referral_share_of_discounted_fee(cfg: FeesConfig, amount: u64, method: FeePaymentMethod)
    requires
        valid_fees_config(cfg),
        method != FeePaymentMethod::Whitelisted,
    ensures
        spec_settlement(cfg, amount, true, method) matches Some(s) && {
            let fee: int = if method == FeePaymentMethod::Native {
                cfg.native_fee as int
            } else {
                cfg.secondary_token_fee as int
            };
            let x = (fee * frac_unit() * (max_bps() - cfg.referral_discount_bps)) / max_bps();
            let share = (x * cfg.referral_share_bps) / max_bps();
            let rest = (x - share + frac_unit() - 1) / frac_unit();
            &&& s.referral_share_fee == share / frac_unit()
            &&& method == FeePaymentMethod::Native ==> s.dev_fee == rest && s.secondary_token_burn_amount == 0
            &&& method == FeePaymentMethod::NonNative ==> s.secondary_token_burn_amount == rest && s.dev_fee == 0
        },
{
    lemma_settlement_valid(cfg, amount, true, method);
    let flat = lemma_flat_fees_valid(cfg, true, method);
    let sf = spec_flat_fees(cfg, true, method)->0;
    let p = spec_precise_settlement(cfg, amount, true, method)->0;
    assert(p.referral_share_fee == sf.1 as i128);
    assert(p.dev_fee == sf.0 as i128);
    assert(p.secondary_token_burn_amount == sf.2 as i128);
}

/// When the flat fee is paid by burning the secondary token, the liquidity fee is discounted by
/// `secondary_token_discount_bps`: with `F = 2^48`, it is the fee `floor(amount * F *
/// liquidity_fee_bps / 10000)` reduced to `(10000 - secondary_token_discount_bps) / 10000` of
/// itself (rounded down in fixed point), then rounded up to a whole unit; the rest of the amount
/// is locked.
pub proof fn lemma_non_native_liquidity_fee_is_discounted(cfg: FeesConfig, amount: u64, referral: bool)
    requires
        valid_fees_config(cfg),
    ensures
        spec_settlement(cfg, amount, referral, FeePaymentMethod::NonNative) matches Some(s) && {
            let fee = (amount * frac_unit() * cfg.liquidity_fee_bps) / max_bps();
            let discounted = (fee * (max_bps() - cfg.secondary_token_discount_bps)) / max_bps();
            &&& s.lp_fee_amount == (discounted + frac_unit() - 1) / frac_unit()
            &&& s.lock_amount + s.lp_fee_amount == amount
        },
{
    lemma_settlement_valid(cfg, amount, referral, FeePaymentMethod::NonNative);
}

/// The liquidity fee of a lock whose flat fee is not paid by burning is exactly
/// `ceil(amount * liquidity_fee_bps / 10000)`, and never above the amount; a valid configuration
/// always settles.
pub proof fn lemma_liquidity_fee_is_ceiling(cfg: FeesConfig, amount: u64, referral: bool, method: FeePaymentMethod)
    requires
        valid_fees_config(cfg),
    ensures
        spec_settlement(cfg, amount, referral, method) is Some,
        spec_settlement(cfg, amount, referral, method)->0.lp_fee_amount <= amount,
        method != FeePaymentMethod::NonNative ==> spec_settlement(cfg, amount, referral, method)->0.lp_fee_amount
            == (amount * cfg.liquidity_fee_bps + max_bps() - 1) / max_bps(),
{
    lemma_settlement_valid(cfg, amount, referral, method);
}

/// The liquidity fee charged on extending or topping up a lock is
/// `ceil(amount * fee_bps / 10000)` whole units, never more than the amount, whenever the fee is
/// at most 100 %.
pub proof fn lemma_liquidity_fee_units_is_ceiling(amount: u64, fee_bps: u16)
    requires
        valid_bps(fee_bps),
    ensures
        spec_liquidity_fee(amount, fee_bps) == Some(spec_fee_units(amount as int, fee_bps as int) as u64),
        0 <= spec_fee_units(amount as int, fee_bps as int) <= amount,
{
    let cfg = FeesConfig {
        native_fee: 0,
        secondary_token_fee: 0,
        secondary_token_discount_bps: 0,
        liquidity_fee_bps: fee_bps,
        referral_share_bps: 0,
        referral_discount_bps: 0,
    };
    let c = lemma_lp_fee_valid(cfg, amount, FeePaymentMethod::Native);
    lemma_to_u64_of_whole(c);
}

/// The flat fees of each payment method: whitelisted lockers pay none; without a referral a
/// native payer pays the native fee and a non-native payer burns the secondary-token fee; with a
/// referral, the referrer's share and the dev fee (or the burn) together never exceed the fee
/// paid without a referral.
pub proof fn lemma_flat_fees_by_method(cfg: FeesConfig, amount: u64, referral: bool, method: FeePaymentMethod)
    requires
        valid_fees_config(cfg),
    ensures
        spec_settlement(cfg, amount, referral, method) matches Some(s) && {
            &&& method == FeePaymentMethod::Whitelisted ==> s.dev_fee == 0 && s.referral_share_fee == 0
                && s.secondary_token_burn_amount == 0
            &&& method == FeePaymentMethod::Native && !referral ==> s.dev_fee == cfg.native_fee
                && s.referral_share_fee == 0 && s.secondary_token_burn_amount == 0
            &&& method == FeePaymentMethod::NonNative && !referral ==> s.secondary_token_burn_amount
                == cfg.secondary_token_fee && s.dev_fee == 0 && s.referral_share_fee == 0
            &&& method == FeePaymentMethod::Native && referral ==> s.secondary_token_burn_amount == 0
                && s.dev_fee + s.referral_share_fee <= cfg.native_fee
            &&& method == FeePaymentMethod::NonNative && referral ==> s.dev_fee == 0
                && s.secondary_token_burn_amount + s.referral_share_fee <= cfg.secondary_token_fee
        },
{
    lemma_settlement_valid(cfg, amount, referral, method);
}

} // verus!
