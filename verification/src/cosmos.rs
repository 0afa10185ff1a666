//! Trusted declarations for the calls this library makes into `cosmwasm_std`
//! and `cw_denom`. Each contract below restates what the called function's
//! source does; nothing here is proved.

use vstd::prelude::*;
use cosmwasm_std::{Decimal, DecimalRangeExceeded, Fraction, StdError, Uint128};
use vstd::arithmetic::power::pow;

verus! {

/// `cosmwasm_std::StdError`, carried through the library unopened.
#[verifier::external_type_specification]
#[verifier::external_body]
pub struct ExStdError(cosmwasm_std::StdError);

/// `cosmwasm_std::DecimalRangeExceeded`, carried through the library unopened.
#[verifier::external_type_specification]
#[verifier::external_body]
pub struct ExDecimalRangeExceeded(cosmwasm_std::DecimalRangeExceeded);

/// Number of atomics in one unit of a `Decimal` (10^18).
pub open spec fn decimal_fractional() -> int {
    1_000_000_000_000_000_000
}

/// The value `Decimal::from_atomics(atomics, places)` stands for, as its
/// atomics, or `None` when it does not fit.
pub open spec fn from_atomics_value(atomics: u128, places: u32) -> Option<u128> {
    if places < 18 {
        let scaled = atomics * pow(10, (18 - places) as nat);
        if scaled <= u128::MAX {
            Some(scaled as u128)
        } else {
            None
        }
    } else if places == 18 {
        Some(atomics)
    } else {
        Some((atomics as int / pow(10, (places - 18) as nat)) as u128)
    }
}

/// Calls `cosmwasm_std::Decimal::from_atomics`. Claimed: with fewer than 18
/// places the atomics are scaled up by the missing powers of ten and the call
/// fails exactly when that overflows; with 18 places they are kept; with more
/// they are divided (truncating) by the extra powers of ten. The result is
/// handed back as the decimal's own atomics.
#[verifier::external_body]
pub(crate) fn decimal_from_atomics(atomics: u128, places: u32) -> (r: Result<u128, DecimalRangeExceeded>)
    ensures
        r is Ok <==> from_atomics_value(atomics, places) is Some,
        r matches Ok(v) ==> from_atomics_value(atomics, places) == Some(v),
{
    Decimal::from_atomics(atomics, places).map(|d| d.atomics().u128())
}

/// Calls `Fraction::inv` on the decimal whose atomics are given. Claimed: no
/// inverse of zero; otherwise the inverse's atomics are 10^36 divided by the
/// atomics, rounded down.
#[verifier::external_body]
pub(crate) fn decimal_inv(atomics: u128) -> (r: Option<u128>)
    ensures
        atomics == 0 ==> r is None,
        atomics != 0 ==> r == Some(
            (decimal_fractional() * decimal_fractional() / atomics as int) as u128,
        ),
{
    Decimal::raw(atomics).inv().map(|d| d.atomics().u128())
}

/// Calls `<Uint128 as Mul<Decimal>>::mul`. Claimed: the product of the amount
/// and the decimal, rounded down; the call panics when that does not fit in
/// 128 bits, which `requires` leaves out.
#[verifier::external_body]
pub(crate) fn uint128_mul_decimal(amount: u128, rate_atomics: u128) -> (r: u128)
    requires
        amount * rate_atomics / decimal_fractional() <= u128::MAX,
    ensures
        r == amount * rate_atomics / decimal_fractional(),
{
    (Uint128::new(amount) * Decimal::raw(rate_atomics)).u128()
}

/// The error `StdError::overflow` makes of the overflow that adding `b` to
/// `a` as `Uint128`s reports.
pub uninterp spec fn add_overflow_error(a: u128, b: u128) -> StdError;

/// Calls `Uint128::checked_add`, turning its overflow error into a `StdError`
/// with `StdError::overflow`. Claimed: the sum when it fits; otherwise the
/// error, which depends on the operands alone (it names the operation and
/// both operands).
#[verifier::external_body]
pub(crate) fn uint128_checked_add(a: u128, b: u128) -> (r: Result<u128, StdError>)
    ensures
        r is Ok <==> a + b <= u128::MAX,
        r matches Ok(v) ==> v == a + b,
        r matches Err(e) ==> e == add_overflow_error(a, b),
{
    Uint128::new(a).checked_add(Uint128::new(b)).map(|v| v.u128()).map_err(StdError::overflow)
}

/// Calls `Uint128::checked_multiply_ratio`. Claimed: `a * numerator /
/// denominator` rounded down, computed without intermediate overflow; `None`
/// when the denominator is zero or the result does not fit in 128 bits.
#[verifier::external_body]
pub(crate) fn uint128_checked_multiply_ratio(a: u128, numerator: u128, denominator: u128) -> (r: Option<u128>)
    ensures
        denominator == 0 ==> r is None,
        denominator != 0 ==> (r is Some <==> a * numerator / (denominator as int) <= u128::MAX),
        r matches Some(v) ==> v == a * numerator / (denominator as int),
{
    Uint128::new(a).checked_multiply_ratio(numerator, denominator).ok().map(|v| v.u128())
}

} // verus!
