//! Fixed-point arithmetic with 80 integer and 48 fractional bits, as computed by the `fixed`
//! crate's `I80F48`. A value is held here by its raw bits: the number `bits / 2^48`.
use vstd::prelude::*;
use fixed::types::I80F48;

verus! {

/// `2^48`, the raw bits of the value one.
pub open spec fn frac_unit() -> int {
    281474976710656
}

/// The raw bits fit the 128-bit representation.
pub open spec fn fits_i128(x: int) -> bool {
    i128::MIN <= x <= i128::MAX
}

/// Absolute value.
pub open spec fn abs_int(x: int) -> int {
    if x < 0 { -x } else { x }
}

/// Division rounding toward zero.
pub open spec fn trunc_div(n: int, d: int) -> int {
    let q = abs_int(n) / abs_int(d);
    if (n >= 0 && d > 0) || (n <= 0 && d < 0) { q } else { -q }
}

/// Raw bits of the product: the exact product of the values, rounded toward minus infinity.
pub open spec fn spec_mul_bits(a: int, b: int) -> int {
    (a * b) / frac_unit()
}

/// Raw bits of the quotient: the exact quotient of the values, rounded toward zero.
pub open spec fn spec_div_bits(a: int, b: int) -> int {
    trunc_div(a * frac_unit(), b)
}

/// Raw bits of the smallest integer value not below the given value.
pub open spec fn spec_ceil_bits(a: int) -> int {
    ((a + frac_unit() - 1) / frac_unit()) * frac_unit()
}

/// The integer part of a value, rounded toward minus infinity.
pub open spec fn spec_floor_int(a: int) -> int {
    a / frac_unit()
}

/// `I80F48::from(x)` for an unsigned 64-bit integer: the value `x` exactly.
#[verifier::external_body]
pub(crate) fn fixed_from_u64(x: u64) -> (r: i128)
    ensures
        r == x * frac_unit(),
{
    let v: I80F48 = x.into();
    v.to_bits()
}

/// `I80F48::checked_mul`: the product rounded toward minus infinity, `None` when it does not fit.
#[verifier::external_body]
pub(crate) fn fixed_checked_mul(a: i128, b: i128) -> (r: Option<i128>)
    ensures
        r is Some <==> fits_i128(spec_mul_bits(a as int, b as int)),
        r matches Some(p) ==> p == spec_mul_bits(a as int, b as int),
{
    I80F48::from_bits(a).checked_mul(I80F48::from_bits(b)).map(|v| v.to_bits())
}

/// `I80F48::checked_div`: the quotient rounded toward zero, `None` for a zero divisor or when
/// the quotient does not fit.
#[verifier::external_body]
pub(crate) fn fixed_checked_div(a: i128, b: i128) -> (r: Option<i128>)
    ensures
        r is Some <==> (b != 0 && fits_i128(spec_div_bits(a as int, b as int))),
        r matches Some(q) ==> q == spec_div_bits(a as int, b as int),
{
    I80F48::from_bits(a).checked_div(I80F48::from_bits(b)).map(|v| v.to_bits())
}

/// `I80F48::checked_ceil`: the next integer toward plus infinity, `None` when it does not fit.
#[verifier::external_body]
pub(crate) fn fixed_checked_ceil(a: i128) -> (r: Option<i128>)
    ensures
        r is Some <==> fits_i128(spec_ceil_bits(a as int)),
        r matches Some(c) ==> c == spec_ceil_bits(a as int),
{
    I80F48::from_bits(a).checked_ceil().map(|v| v.to_bits())
}

/// `I80F48::checked_sub`: the exact difference, `None` when it does not fit.
#[verifier::external_body]
pub(crate) fn fixed_checked_sub(a: i128, b: i128) -> (r: Option<i128>)
    ensures
        r is Some <==> fits_i128(a - b),
        r matches Some(d) ==> d == a - b,
{
    I80F48::from_bits(a).checked_sub(I80F48::from_bits(b)).map(|v| v.to_bits())
}

/// `I80F48::checked_to_num::<u64>`: the integer part (rounded toward minus infinity), `None`
/// when it is negative or above `u64::MAX`.
#[verifier::external_body]
pub(crate) fn fixed_checked_to_u64(a: i128) -> (r: Option<u64>)
    ensures
        r is Some <==> 0 <= spec_floor_int(a as int) <= u64::MAX,
        r matches Some(n) ==> n == spec_floor_int(a as int),
{
    I80F48::from_bits(a).checked_to_num::<u64>()
}

} // verus!
