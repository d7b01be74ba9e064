//! Conversion between payment-asset amounts and sale-asset amounts.
//!
//! The sale asset carries eighteen decimal places and the payment asset six.
//! Both are normalized by dropping their low two decimals before the fixed
//! ratio is applied, which keeps every intermediate product within `u128`
//! range for realistic amounts.  Every division truncates, in the stated
//! order; the two directions are deliberately not exact inverses, and callers
//! rely on the loss being truncation, never rounding up.

use vstd::prelude::*;

use crate::error::SaleError;

verus! {

/// One normalization unit of the sale asset: its eighteen decimals less the
/// two that survive normalization.
pub const IDO_TOKEN_SCALE: u128 = 10_000_000_000_000_000;

/// One normalization unit of the payment asset: its six decimals less the two
/// that survive normalization.
pub const PAY_TOKEN_SCALE: u128 = 10_000;

/// The fixed-point scale of the price ratio: a ratio of this value means one
/// normalized sale unit costs one normalized payment unit.
pub const PRICE_MULTIPLIER: u64 = 10_000;

/// The payment amount a sale-asset amount costs: normalize the sale amount,
/// apply the scaled ratio, then undo the ratio's fixed-point scale, truncating
/// at each division.
pub open spec fn payment_amount_of(sale_amount: int, ratio: int, multiplier: int) -> int {
    ((sale_amount / (IDO_TOKEN_SCALE as int)) * (ratio * (PAY_TOKEN_SCALE as int))) / multiplier
}

/// The sale-asset amount a payment amount is worth: undo the ratio's
/// fixed-point scale, divide by the scaled ratio, then denormalize, truncating
/// at each division.
pub open spec fn sale_amount_of(payment_amount: int, ratio: int, multiplier: int) -> int {
    ((payment_amount * multiplier) / (ratio * (PAY_TOKEN_SCALE as int))) * (IDO_TOKEN_SCALE as int)
}

/// Whether computing `payment_amount_of` on these values would leave `u128`.
pub open spec fn payment_amount_overflows(sale_amount: int, ratio: int) -> bool {
    (sale_amount / (IDO_TOKEN_SCALE as int)) * (ratio * (PAY_TOKEN_SCALE as int)) > u128::MAX
}

/// Whether computing `sale_amount_of` on these values would leave `u128`.
pub open spec fn sale_amount_overflows(payment_amount: int, ratio: int, multiplier: int) -> bool {
    payment_amount * multiplier > u128::MAX
        || sale_amount_of(payment_amount, ratio, multiplier) > u128::MAX
}

/// Converts a sale-asset amount into the payment-asset amount it costs.
pub fn to_payment_amount(sale_amount: u128, ratio: u64, multiplier: u64) -> (r: Result<
    u128,
    SaleError,
>)
    requires
        ratio >= 1,
        multiplier >= 1,
    ensures
        r is Ok <==> !payment_amount_overflows(sale_amount as int, ratio as int),
        r matches Ok(p) ==> p == payment_amount_of(
            sale_amount as int,
            ratio as int,
            multiplier as int,
        ),
        r matches Err(e) ==> e == SaleError::ArithmeticOverflow,
{
    let normalized: u128 = sale_amount / IDO_TOKEN_SCALE;
    let scaled_ratio: u128 = (ratio as u128) * PAY_TOKEN_SCALE;
    match normalized.checked_mul(scaled_ratio) {
        Some(product) => Ok(product / (multiplier as u128)),
        None => Err(SaleError::ArithmeticOverflow),
    }
}

/// Converts a payment-asset amount into the sale-asset amount it buys.
pub fn to_sale_amount(payment_amount: u128, ratio: u64, multiplier: u64) -> (r: Result<
    u128,
    SaleError,
>)
    requires
        ratio >= 1,
        multiplier >= 1,
    ensures
        r is Ok <==> !sale_amount_overflows(payment_amount as int, ratio as int, multiplier as int),
        r matches Ok(s) ==> s == sale_amount_of(
            payment_amount as int,
            ratio as int,
            multiplier as int,
        ),
        r matches Err(e) ==> e == SaleError::ArithmeticOverflow,
{
    let descaled: u128 = match payment_amount.checked_mul(multiplier as u128) {
        Some(v) => v,
        None => {
            return Err(SaleError::ArithmeticOverflow);
        },
    };
    let scaled_ratio: u128 = (ratio as u128) * PAY_TOKEN_SCALE;
    let units: u128 = descaled / scaled_ratio;
    match units.checked_mul(IDO_TOKEN_SCALE) {
        Some(v) => Ok(v),
        None => Err(SaleError::ArithmeticOverflow),
    }
}

} // verus!
