use vstd::prelude::*;

verus! {

/// Why an operation was refused.  Every refusal aborts the whole operation:
/// the records handed to the operation are left exactly as they were.
#[derive(Clone, Copy, Debug, PartialEq, Eq, Structural)]
pub enum SaleError {
    /// The funding window would end before it starts.
    InvalidWindow,
    /// The sale-asset liquidity was already supplied.
    AlreadyFunded,
    /// The supplied liquidity does not cover what investors are owed.
    UnderAllocated,
    /// A percentage above one hundred.
    PercentageOutOfRange,
    /// Claiming was already opened, so the setting is frozen.
    ClaimingAlreadyOpen,
    /// Claiming has not been opened yet.
    ClaimingNotOpen,
    /// The sale-asset liquidity has not been supplied yet.
    NotFunded,
    /// The funding window has not closed yet.
    FundingStillOpen,
    /// The funding window is not open.
    FundingNotOpen,
    /// The sale was canceled.
    SaleCanceled,
    /// The sale was not canceled.
    NotCanceled,
    /// A purchase of nothing.
    InvalidAmount,
    /// The purchase would exceed the caller's allocation.
    AllocationExceeded,
    /// The sale demands the whole allocation in a single purchase.
    PartialPurchaseNotAllowed,
    /// The caller never purchased anything.
    NotAnInvestor,
    /// The whole entitlement was already claimed.
    AlreadyFullyClaimed,
    /// The spent amount was already reclaimed.
    AlreadyRefunded,
    /// An intermediate product or sum does not fit its integer type.
    ArithmeticOverflow,
    /// An intermediate difference would be negative.
    ArithmeticUnderflow,
    /// The caller is not the sale's admin.
    Unauthorized,
}

} // verus!
