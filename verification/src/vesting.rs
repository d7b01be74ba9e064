//! The vesting calculator: how much of an investor's entitlement is
//! releasable at a given instant.
//!
//! The schedule has three phases.  Past the claiming window everything is
//! vested.  Inside it, with a cliff, the cliff portion is available at once —
//! even before the window opens — and the remainder vests linearly; without a
//! cliff the whole entitlement vests linearly, and asking before the window
//! opens is a fail-closed error rather than zero.  The cliff portion is
//! computed from a basis re-derived from the amount spent, not from the
//! entitlement itself, so the two can diverge when price truncation differs.

use vstd::prelude::*;

use vstd::arithmetic::div_mod::{
    lemma_div_pos_is_pos,
    lemma_fundamental_div_mod,
    lemma_remainder_lower,
};
use vstd::arithmetic::mul::lemma_mul_inequality;

use crate::error::SaleError;

verus! {

/// The cliff portion of a vesting basis: a truncating percent-of.
pub open spec fn cliff_amount_of(basis: int, percent: int) -> int {
    (basis / 100) * percent
}

/// The cumulative amount vested at `now` under the schedule: everything past
/// the window's end; otherwise the cliff portion at once plus the remainder
/// linearly, or — with no cliff — the whole entitlement linearly.  Every
/// division truncates.
pub open spec fn claimable_to_date(
    entitled: int,
    percent: int,
    basis: int,
    start: int,
    end: int,
    now: int,
) -> int {
    if now > end {
        entitled
    } else if percent > 0 {
        if now >= start {
            ((entitled - cliff_amount_of(basis, percent)) / (end - start)) * (now - start)
                + cliff_amount_of(basis, percent)
        } else {
            cliff_amount_of(basis, percent)
        }
    } else {
        (entitled / (end - start)) * (now - start)
    }
}

/// When the incremental claim succeeds: the schedule's value is defined,
/// does not underflow, and covers what was already claimed.
pub open spec fn vesting_ok(
    entitled: int,
    claimed: int,
    percent: int,
    basis: int,
    start: int,
    end: int,
    now: int,
) -> bool {
    if now > end {
        claimed <= entitled
    } else if percent > 0 {
        if now >= start {
            &&& cliff_amount_of(basis, percent) <= entitled
            &&& claimed <= claimable_to_date(entitled, percent, basis, start, end, now)
        } else {
            claimed <= cliff_amount_of(basis, percent)
        }
    } else {
        &&& now >= start
        &&& claimed <= claimable_to_date(entitled, percent, basis, start, end, now)
    }
}

/// A truncating division scaled back by at most the divisor never exceeds
/// the dividend: `(a / b) * k <= a` whenever `0 <= k <= b`.
pub proof fn lemma_scaled_div_le(a: int, b: int, k: int)
    requires
        0 <= a,
        1 <= b,
        0 <= k <= b,
    ensures
        0 <= (a / b) * k <= a,
{
    lemma_div_pos_is_pos(a, b);
    lemma_mul_inequality(k, b, a / b);
    lemma_fundamental_div_mod(a, b);
    lemma_remainder_lower(a, b);
    assert(k * (a / b) == (a / b) * k) by (nonlinear_arith);
    assert(b * (a / b) == (a / b) * b) by (nonlinear_arith);
}

/// Whenever the cliff portion does not exceed the entitlement — and, with no
/// cliff, the window has opened — the schedule's cumulative value stays
/// between zero and the entitlement.
pub proof fn lemma_claimable_to_date_bounds(
    entitled: int,
    percent: int,
    basis: int,
    start: int,
    end: int,
    now: int,
)
    requires
        0 <= entitled,
        0 <= basis,
        0 <= percent <= 100,
        start < end,
        cliff_amount_of(basis, percent) <= entitled,
        percent == 0 ==> now >= start,
    ensures
        0 <= claimable_to_date(entitled, percent, basis, start, end, now) <= entitled,
{
    lemma_scaled_div_le(basis, 100, percent);
    if now > end {
    } else if percent > 0 {
        if now >= start {
            lemma_scaled_div_le(entitled - cliff_amount_of(basis, percent), end - start, now
                - start);
        }
    } else {
        lemma_scaled_div_le(entitled, end - start, now - start);
    }
}

/// The incremental amount claimable now: the schedule's cumulative value
/// less what was already claimed.  A negative intermediate difference —
/// asking before the window opens with no cliff, a cliff portion above the
/// entitlement, or a claimed amount above the schedule's value — is a
/// fail-closed arithmetic error.
pub fn claimable_tokens(
    entitled: u128,
    claimed: u128,
    percent: u8,
    basis: u128,
    start: i64,
    end: i64,
    now: i64,
) -> (r: Result<u128, SaleError>)
    requires
        start < end,
        end - start <= i64::MAX,
        percent <= 100,
    ensures
        r is Ok <==> vesting_ok(
            entitled as int,
            claimed as int,
            percent as int,
            basis as int,
            start as int,
            end as int,
            now as int,
        ),
        r matches Ok(inc) ==> claimed + inc == claimable_to_date(
            entitled as int,
            percent as int,
            basis as int,
            start as int,
            end as int,
            now as int,
        ) && claimed + inc <= u128::MAX,
        r matches Err(e) ==> e == SaleError::ArithmeticUnderflow,
{
    let duration: i64 = end - start;
    let total: u128;
    if now > end {
        total = entitled;
    } else if percent > 0 {
        proof {
            lemma_scaled_div_le(basis as int, 100, percent as int);
        }
        let cliff: u128 = (basis / 100) * (percent as u128);
        if now >= start {
            if entitled < cliff {
                return Err(SaleError::ArithmeticUnderflow);
            }
            let rate: u128 = (entitled - cliff) / (duration as u128);
            let elapsed: i64 = now - start;
            proof {
                lemma_scaled_div_le((entitled - cliff) as int, duration as int, elapsed as int);
            }
            let vested: u128 = rate * (elapsed as u128);
            total = vested + cliff;
        } else {
            total = cliff;
        }
    } else {
        if now < start {
            return Err(SaleError::ArithmeticUnderflow);
        }
        let rate: u128 = entitled / (duration as u128);
        let elapsed: i64 = now - start;
        proof {
            lemma_scaled_div_le(entitled as int, duration as int, elapsed as int);
        }
        total = rate * (elapsed as u128);
    }
    if total < claimed {
        return Err(SaleError::ArithmeticUnderflow);
    }
    Ok(total - claimed)
}

} // verus!
