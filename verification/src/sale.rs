//! The sale's operations: guarded transitions over the configuration, the
//! ledger and one investor account.
//!
//! Every operation validates fully before its first mutation, so a refusal
//! leaves every record exactly as it was; the refusal conditions, and which
//! error wins when several hold, are pinned by the `*_refusal` spec
//! functions.  Mutating operations return the event the caller's event sink
//! should receive.

use vstd::prelude::*;

use crate::error::SaleError;
use crate::price;
use crate::price::PRICE_MULTIPLIER;
use crate::state::{AuthorizedSaleAccount, BuyerInfo, InvestorId, SaleAccount};
use crate::vesting;

verus! {

/// Event delivered on a successful purchase.
#[derive(Clone, Copy, Debug, PartialEq, Eq, Structural)]
pub struct BoughtIDOTokens {
    pub buyer: InvestorId,
    pub spend_pay_tokens: u128,
    pub ido_tokens_to_get: u128,
    pub timestamp: i64,
}

/// Event delivered on a successful claim.
#[derive(Clone, Copy, Debug, PartialEq, Eq, Structural)]
pub struct ClaimedIDOTokens {
    pub buyer: InvestorId,
    pub ido_tokens_to_get: u128,
}

/// Event delivered when the admin moves the claiming window's end.
#[derive(Clone, Copy, Debug, PartialEq, Eq, Structural)]
pub struct ChangedEndDateOfClaimingTokens {
    pub admin: InvestorId,
    pub old_end_date_of_claiming_tokens: i64,
    pub end_date_of_claiming_tokens: i64,
}

/// Event delivered when the admin opens or closes claiming.
#[derive(Clone, Copy, Debug, PartialEq, Eq, Structural)]
pub struct ChangedIsClaimingOpen {
    pub admin: InvestorId,
    pub old_is_claiming_open: bool,
    pub is_claiming_open: bool,
}

/// Event delivered when the admin changes the cliff percentage.
#[derive(Clone, Copy, Debug, PartialEq, Eq, Structural)]
pub struct ChangedInitialPercentageAllocationIdoTokens {
    pub admin: InvestorId,
    pub old_initial_percentage_allocation_ido_tokens: u8,
    pub initial_percentage_allocation_ido_tokens: u8,
}

/// Creates the two sale-wide records: the configuration under `admin`, and
/// the ledger zeroed.  The cliff percentage starts at zero and the claiming
/// start stands unset until claiming opens.
pub fn initialize(
    admin: InvestorId,
    ido_token_price_ratio: u64,
    start_date_funding: i64,
    end_date_funding: i64,
    end_date_of_claiming_tokens: i64,
    in_one_transaction: bool,
) -> (r: Result<(AuthorizedSaleAccount, SaleAccount), SaleError>)
    requires
        ido_token_price_ratio >= 1,
    ensures
        r is Ok <==> start_date_funding < end_date_funding,
        r matches Err(e) ==> e == SaleError::InvalidWindow,
        r matches Ok(pair) ==> ({
            &&& pair.0.wf()
            &&& pair.0 == (AuthorizedSaleAccount {
                admin,
                ido_token_price_ratio,
                ido_token_price_multiplier: PRICE_MULTIPLIER,
                initial_percentage_allocation_ido_tokens: 0,
                tokens_for_sale: 0,
                start_date_funding,
                end_date_funding,
                start_date_of_claiming_tokens: 0,
                end_date_of_claiming_tokens,
                is_ido_token_funded_to_contract: false,
                is_funding_canceled: false,
                in_one_transaction,
                is_claiming_open: false,
            })
            &&& pair.1.total_spend_pay_tokens == 0
            &&& pair.1.total_allocated_ido_tokens == 0
            &&& pair.1.investor_count == 0
            &&& pair.1.buyers_list@.len() == 0
        }),
{
    if !(start_date_funding < end_date_funding) {
        return Err(SaleError::InvalidWindow);
    }
    let config = AuthorizedSaleAccount {
        admin,
        ido_token_price_ratio,
        ido_token_price_multiplier: PRICE_MULTIPLIER,
        initial_percentage_allocation_ido_tokens: 0,
        tokens_for_sale: 0,
        start_date_funding,
        end_date_funding,
        start_date_of_claiming_tokens: 0,
        end_date_of_claiming_tokens,
        is_ido_token_funded_to_contract: false,
        is_funding_canceled: false,
        in_one_transaction,
        is_claiming_open: false,
    };
    let ledger = SaleAccount {
        total_spend_pay_tokens: 0,
        total_allocated_ido_tokens: 0,
        investor_count: 0,
        buyers_list: Vec::new(),
    };
    Ok((config, ledger))
}

/// Creates one investor's account, zeroed.  The caller must create it at
/// most once per investor.
pub fn creat_buyer_info() -> (b: BuyerInfo)
    ensures
        b.spend_pay_tokens == 0,
        b.ido_tokens_to_get == 0,
        b.ido_tokens_claimed == 0,
        !b.has_claimed_pay_tokens,
{
    BuyerInfo {
        spend_pay_tokens: 0,
        ido_tokens_to_get: 0,
        ido_tokens_claimed: 0,
        has_claimed_pay_tokens: false,
    }
}

/// The configuration with only the cliff percentage replaced.
pub open spec fn with_percentage(
    config: AuthorizedSaleAccount,
    percentage: u8,
) -> AuthorizedSaleAccount {
    AuthorizedSaleAccount { initial_percentage_allocation_ido_tokens: percentage, ..config }
}

/// Sets the cliff percentage, while claiming has not opened yet.
pub fn set_initial_percentage_allocation_ido_tokens(
    config: &mut AuthorizedSaleAccount,
    caller: InvestorId,
    percentage: u8,
) -> (r: Result<ChangedInitialPercentageAllocationIdoTokens, SaleError>)
    ensures
        r is Ok <==> caller == old(config).admin && !old(config).is_claiming_open && percentage
            <= 100,
        r matches Err(e) ==> *final(config) == *old(config) && e == (if caller != old(
            config,
        ).admin {
            SaleError::Unauthorized
        } else if old(config).is_claiming_open {
            SaleError::ClaimingAlreadyOpen
        } else {
            SaleError::PercentageOutOfRange
        }),
        r matches Ok(ev) ==> *final(config) == with_percentage(*old(config), percentage) && ev
            == (ChangedInitialPercentageAllocationIdoTokens {
            admin: caller,
            old_initial_percentage_allocation_ido_tokens: old(
                config,
            ).initial_percentage_allocation_ido_tokens,
            initial_percentage_allocation_ido_tokens: percentage,
        }),
{
    if !config.is_admin(caller) {
        return Err(SaleError::Unauthorized);
    }
    if config.is_claiming_open {
        return Err(SaleError::ClaimingAlreadyOpen);
    }
    if percentage > 100 {
        return Err(SaleError::PercentageOutOfRange);
    }
    let previous = config.initial_percentage_allocation_ido_tokens;
    config.initial_percentage_allocation_ido_tokens = percentage;
    Ok(
        ChangedInitialPercentageAllocationIdoTokens {
            admin: caller,
            old_initial_percentage_allocation_ido_tokens: previous,
            initial_percentage_allocation_ido_tokens: percentage,
        },
    )
}

/// The configuration with only the claiming flag and the claiming start
/// replaced.
pub open spec fn with_claiming(
    config: AuthorizedSaleAccount,
    is_claiming_open: bool,
    start_date_of_claiming_tokens: i64,
) -> AuthorizedSaleAccount {
    AuthorizedSaleAccount { is_claiming_open, start_date_of_claiming_tokens, ..config }
}

/// Opens (or closes) claiming and records the instant vesting starts from.
pub fn enable_claiming(
    config: &mut AuthorizedSaleAccount,
    caller: InvestorId,
    is_claiming_open: bool,
    start_date_of_claiming_tokens: i64,
) -> (r: Result<ChangedIsClaimingOpen, SaleError>)
    ensures
        r is Ok <==> caller == old(config).admin,
        r matches Err(e) ==> *final(config) == *old(config) && e == SaleError::Unauthorized,
        r matches Ok(ev) ==> *final(config) == with_claiming(
            *old(config),
            is_claiming_open,
            start_date_of_claiming_tokens,
        ) && ev == (ChangedIsClaimingOpen {
            admin: caller,
            old_is_claiming_open: old(config).is_claiming_open,
            is_claiming_open,
        }),
{
    if !config.is_admin(caller) {
        return Err(SaleError::Unauthorized);
    }
    let previous = config.is_claiming_open;
    config.is_claiming_open = is_claiming_open;
    config.start_date_of_claiming_tokens = start_date_of_claiming_tokens;
    Ok(ChangedIsClaimingOpen { admin: caller, old_is_claiming_open: previous, is_claiming_open })
}

/// The configuration with only the claiming end replaced.
pub open spec fn with_end_date(
    config: AuthorizedSaleAccount,
    end_date_of_claiming_tokens: i64,
) -> AuthorizedSaleAccount {
    AuthorizedSaleAccount { end_date_of_claiming_tokens, ..config }
}

/// Moves the claiming window's end, while claiming has not opened yet.
pub fn set_end_date_of_claiming_tokens(
    config: &mut AuthorizedSaleAccount,
    caller: InvestorId,
    end_date_of_claiming_tokens: i64,
) -> (r: Result<ChangedEndDateOfClaimingTokens, SaleError>)
    ensures
        r is Ok <==> caller == old(config).admin && !old(config).is_claiming_open,
        r matches Err(e) ==> *final(config) == *old(config) && e == (if caller != old(
            config,
        ).admin {
            SaleError::Unauthorized
        } else {
            SaleError::ClaimingAlreadyOpen
        }),
        r matches Ok(ev) ==> *final(config) == with_end_date(
            *old(config),
            end_date_of_claiming_tokens,
        ) && ev == (ChangedEndDateOfClaimingTokens {
            admin: caller,
            old_end_date_of_claiming_tokens: old(config).end_date_of_claiming_tokens,
            end_date_of_claiming_tokens,
        }),
{
    if !config.is_admin(caller) {
        return Err(SaleError::Unauthorized);
    }
    if config.is_claiming_open {
        return Err(SaleError::ClaimingAlreadyOpen);
    }
    let previous = config.end_date_of_claiming_tokens;
    config.end_date_of_claiming_tokens = end_date_of_claiming_tokens;
    Ok(
        ChangedEndDateOfClaimingTokens {
            admin: caller,
            old_end_date_of_claiming_tokens: previous,
            end_date_of_claiming_tokens,
        },
    )
}

/// The configuration with only the supplied liquidity and the funded flag
/// replaced.
pub open spec fn with_funding(
    config: AuthorizedSaleAccount,
    tokens_for_sale: u128,
) -> AuthorizedSaleAccount {
    AuthorizedSaleAccount { tokens_for_sale, is_ido_token_funded_to_contract: true, ..config }
}

/// Which error refuses a funding attempt, if any.
pub open spec fn fund_refusal(
    config: AuthorizedSaleAccount,
    ledger: SaleAccount,
    caller: InvestorId,
    amount_in_ido_tokens: u128,
    now: i64,
) -> Option<SaleError> {
    if caller != config.admin {
        Some(SaleError::Unauthorized)
    } else if !(now > config.end_date_funding) {
        Some(SaleError::FundingStillOpen)
    } else if config.is_funding_canceled {
        Some(SaleError::SaleCanceled)
    } else if config.is_ido_token_funded_to_contract {
        Some(SaleError::AlreadyFunded)
    } else if ledger.total_allocated_ido_tokens > amount_in_ido_tokens {
        Some(SaleError::UnderAllocated)
    } else {
        None
    }
}

/// Supplies the sale-asset liquidity, once, after funding closed; the amount
/// must cover everything investors are owed.
pub fn fund_to_contract(
    config: &mut AuthorizedSaleAccount,
    ledger: &SaleAccount,
    caller: InvestorId,
    amount_in_ido_tokens: u128,
    now: i64,
) -> (r: Result<(), SaleError>)
    ensures
        r is Ok <==> fund_refusal(*old(config), *ledger, caller, amount_in_ido_tokens, now)
            is None,
        r matches Err(e) ==> *final(config) == *old(config) && Some(e) == fund_refusal(
            *old(config),
            *ledger,
            caller,
            amount_in_ido_tokens,
            now,
        ),
        r is Ok ==> *final(config) == with_funding(*old(config), amount_in_ido_tokens),
{
    if !config.is_admin(caller) {
        return Err(SaleError::Unauthorized);
    }
    if !config.is_funding_closed(now) {
        return Err(SaleError::FundingStillOpen);
    }
    if config.is_funding_canceled_by_admin() {
        return Err(SaleError::SaleCanceled);
    }
    if config.is_ido_token_funded_to_contract {
        return Err(SaleError::AlreadyFunded);
    }
    if ledger.total_allocated_ido_tokens > amount_in_ido_tokens {
        return Err(SaleError::UnderAllocated);
    }
    config.tokens_for_sale = amount_in_ido_tokens;
    config.is_ido_token_funded_to_contract = true;
    Ok(())
}

/// Which error refuses a purchase, if any, in the order the checks run.
pub open spec fn buy_refusal(
    config: AuthorizedSaleAccount,
    ledger: SaleAccount,
    buyer_info: BuyerInfo,
    amount_in_pay_token: u128,
    allocation_in_ido_tokens: u128,
    now: i64,
) -> Option<SaleError> {
    let ratio = config.ido_token_price_ratio as int;
    let multiplier = config.ido_token_price_multiplier as int;
    let cap = price::payment_amount_of(allocation_in_ido_tokens as int, ratio, multiplier);
    let bought = price::sale_amount_of(amount_in_pay_token as int, ratio, multiplier);
    if !(config.start_date_funding <= now && now <= config.end_date_funding) {
        Some(SaleError::FundingNotOpen)
    } else if config.is_funding_canceled {
        Some(SaleError::SaleCanceled)
    } else if price::payment_amount_overflows(allocation_in_ido_tokens as int, ratio)
        || price::sale_amount_overflows(amount_in_pay_token as int, ratio, multiplier) {
        Some(SaleError::ArithmeticOverflow)
    } else if amount_in_pay_token == 0 {
        Some(SaleError::InvalidAmount)
    } else if amount_in_pay_token > cap {
        Some(SaleError::AllocationExceeded)
    } else if buyer_info.spend_pay_tokens + amount_in_pay_token > u128::MAX {
        Some(SaleError::ArithmeticOverflow)
    } else if buyer_info.spend_pay_tokens + amount_in_pay_token > cap {
        Some(SaleError::AllocationExceeded)
    } else if config.in_one_transaction && amount_in_pay_token != cap {
        Some(SaleError::PartialPurchaseNotAllowed)
    } else if ledger.total_spend_pay_tokens + amount_in_pay_token > u128::MAX
        || ledger.total_allocated_ido_tokens + bought > u128::MAX || buyer_info.ido_tokens_to_get
        + bought > u128::MAX || (buyer_info.spend_pay_tokens == 0 && ledger.investor_count + 1
        > u64::MAX) {
        Some(SaleError::ArithmeticOverflow)
    } else {
        None
    }
}

/// Purchases sale-asset entitlement with `amount_in_pay_token`, within the
/// caller's externally determined allocation, during the funding window.
/// Prices the request, then updates the investor's account and the ledger —
/// counting the investor and appending them to the registry only on their
/// first purchase.
pub fn buy(
    config: &AuthorizedSaleAccount,
    ledger: &mut SaleAccount,
    buyer_info: &mut BuyerInfo,
    buyer: InvestorId,
    amount_in_pay_token: u128,
    allocation_in_ido_tokens: u128,
    now: i64,
) -> (r: Result<BoughtIDOTokens, SaleError>)
    requires
        config.wf(),
    ensures
        r is Ok <==> buy_refusal(
            *config,
            *old(ledger),
            *old(buyer_info),
            amount_in_pay_token,
            allocation_in_ido_tokens,
            now,
        ) is None,
        r matches Err(e) ==> Some(e) == buy_refusal(
            *config,
            *old(ledger),
            *old(buyer_info),
            amount_in_pay_token,
            allocation_in_ido_tokens,
            now,
        ) && *final(ledger) == *old(ledger) && *final(buyer_info) == *old(buyer_info),
        r matches Ok(ev) ==> ({
            let bought = price::sale_amount_of(
                amount_in_pay_token as int,
                config.ido_token_price_ratio as int,
                config.ido_token_price_multiplier as int,
            );
            &&& final(ledger).total_spend_pay_tokens == old(ledger).total_spend_pay_tokens
                + amount_in_pay_token
            &&& final(ledger).total_allocated_ido_tokens == old(ledger).total_allocated_ido_tokens
                + bought
            &&& final(ledger).investor_count == old(ledger).investor_count + (if old(
                buyer_info,
            ).spend_pay_tokens == 0 {
                1int
            } else {
                0int
            })
            &&& final(ledger).buyers_list@ == (if old(ledger).buyers_list@.contains(buyer) {
                old(ledger).buyers_list@
            } else {
                old(ledger).buyers_list@.push(buyer)
            })
            &&& final(buyer_info).spend_pay_tokens == old(buyer_info).spend_pay_tokens
                + amount_in_pay_token
            &&& final(buyer_info).ido_tokens_to_get == old(buyer_info).ido_tokens_to_get + bought
            &&& final(buyer_info).ido_tokens_claimed == old(buyer_info).ido_tokens_claimed
            &&& final(buyer_info).has_claimed_pay_tokens == old(buyer_info).has_claimed_pay_tokens
            &&& ev == (BoughtIDOTokens {
                buyer,
                spend_pay_tokens: amount_in_pay_token,
                ido_tokens_to_get: bought as u128,
                timestamp: now,
            })
        }),
{
    if !config.is_funding_open_and_running(now) {
        return Err(SaleError::FundingNotOpen);
    }
    if config.is_funding_canceled_by_admin() {
        return Err(SaleError::SaleCanceled);
    }
    let max_payment = match config.calculate_max_payment_token(allocation_in_ido_tokens) {
        Ok(v) => v,
        Err(e) => {
            return Err(e);
        },
    };
    let ido_tokens_to_buy = match config.calculate_ido_tokens_bought(amount_in_pay_token) {
        Ok(v) => v,
        Err(e) => {
            return Err(e);
        },
    };
    if amount_in_pay_token == 0 {
        return Err(SaleError::InvalidAmount);
    }
    if amount_in_pay_token > max_payment {
        return Err(SaleError::AllocationExceeded);
    }
    let new_spend = match buyer_info.spend_pay_tokens.checked_add(amount_in_pay_token) {
        Some(v) => v,
        None => {
            return Err(SaleError::ArithmeticOverflow);
        },
    };
    if new_spend > max_payment {
        return Err(SaleError::AllocationExceeded);
    }
    if config.in_one_transaction && amount_in_pay_token != max_payment {
        return Err(SaleError::PartialPurchaseNotAllowed);
    }
    let new_total_spend = match ledger.total_spend_pay_tokens.checked_add(amount_in_pay_token) {
        Some(v) => v,
        None => {
            return Err(SaleError::ArithmeticOverflow);
        },
    };
    let new_total_allocated = match ledger.total_allocated_ido_tokens.checked_add(
        ido_tokens_to_buy,
    ) {
        Some(v) => v,
        None => {
            return Err(SaleError::ArithmeticOverflow);
        },
    };
    let new_to_get = match buyer_info.ido_tokens_to_get.checked_add(ido_tokens_to_buy) {
        Some(v) => v,
        None => {
            return Err(SaleError::ArithmeticOverflow);
        },
    };
    let first_purchase = buyer_info.spend_pay_tokens == 0;
    let new_count = if first_purchase {
        match ledger.investor_count.checked_add(1) {
            Some(v) => v,
            None => {
                return Err(SaleError::ArithmeticOverflow);
            },
        }
    } else {
        ledger.investor_count
    };
    let already_listed = ledger.is_buyer(buyer);
    ledger.total_spend_pay_tokens = new_total_spend;
    ledger.total_allocated_ido_tokens = new_total_allocated;
    ledger.investor_count = new_count;
    buyer_info.spend_pay_tokens = new_spend;
    buyer_info.ido_tokens_to_get = new_to_get;
    if !already_listed {
        ledger.buyers_list.push(buyer);
    }
    Ok(
        BoughtIDOTokens {
            buyer,
            spend_pay_tokens: amount_in_pay_token,
            ido_tokens_to_get: ido_tokens_to_buy,
            timestamp: now,
        },
    )
}

/// Which error refuses a claim, if any, in the order the checks run.
pub open spec fn claim_refusal(
    config: AuthorizedSaleAccount,
    ledger: SaleAccount,
    buyer_info: BuyerInfo,
    buyer: InvestorId,
    now: i64,
) -> Option<SaleError> {
    let ratio = config.ido_token_price_ratio as int;
    let multiplier = config.ido_token_price_multiplier as int;
    let basis = price::sale_amount_of(buyer_info.spend_pay_tokens as int, ratio, multiplier);
    if !(now > config.end_date_funding) {
        Some(SaleError::FundingStillOpen)
    } else if config.is_funding_canceled {
        Some(SaleError::SaleCanceled)
    } else if !config.is_ido_token_funded_to_contract {
        Some(SaleError::NotFunded)
    } else if !config.is_claiming_open {
        Some(SaleError::ClaimingNotOpen)
    } else if buyer_info.ido_tokens_claimed >= buyer_info.ido_tokens_to_get {
        Some(SaleError::AlreadyFullyClaimed)
    } else if !ledger.buyers_list@.contains(buyer) {
        Some(SaleError::NotAnInvestor)
    } else if price::sale_amount_overflows(buyer_info.spend_pay_tokens as int, ratio, multiplier) {
        Some(SaleError::ArithmeticOverflow)
    } else if !vesting::vesting_ok(
        buyer_info.ido_tokens_to_get as int,
        buyer_info.ido_tokens_claimed as int,
        config.initial_percentage_allocation_ido_tokens as int,
        basis,
        config.start_date_of_claiming_tokens as int,
        config.end_date_of_claiming_tokens as int,
        now as int,
    ) {
        Some(SaleError::ArithmeticUnderflow)
    } else {
        None
    }
}

/// Claims the part of the caller's entitlement vested by `now` and not yet
/// released.  The vesting basis is re-derived from the amount spent, so it
/// can diverge from the entitlement; whenever it does not exceed the
/// entitlement, the cumulative claimed amount stays within the entitlement.
pub fn claim_tokens(
    config: &AuthorizedSaleAccount,
    ledger: &SaleAccount,
    buyer_info: &mut BuyerInfo,
    buyer: InvestorId,
    now: i64,
) -> (r: Result<ClaimedIDOTokens, SaleError>)
    requires
        config.wf(),
        config.claiming_window_wf(),
    ensures
        r is Ok <==> claim_refusal(*config, *ledger, *old(buyer_info), buyer, now) is None,
        r matches Err(e) ==> Some(e) == claim_refusal(*config, *ledger, *old(buyer_info), buyer, now)
            && *final(buyer_info) == *old(buyer_info),
        r matches Ok(ev) ==> ({
            let total = vesting::claimable_to_date(
                old(buyer_info).ido_tokens_to_get as int,
                config.initial_percentage_allocation_ido_tokens as int,
                price::sale_amount_of(
                    old(buyer_info).spend_pay_tokens as int,
                    config.ido_token_price_ratio as int,
                    config.ido_token_price_multiplier as int,
                ),
                config.start_date_of_claiming_tokens as int,
                config.end_date_of_claiming_tokens as int,
                now as int,
            );
            &&& final(buyer_info).ido_tokens_claimed == total
            &&& final(buyer_info).spend_pay_tokens == old(buyer_info).spend_pay_tokens
            &&& final(buyer_info).ido_tokens_to_get == old(buyer_info).ido_tokens_to_get
            &&& final(buyer_info).has_claimed_pay_tokens == old(buyer_info).has_claimed_pay_tokens
            &&& ev == (ClaimedIDOTokens {
                buyer,
                ido_tokens_to_get: (total - old(buyer_info).ido_tokens_claimed) as u128,
            })
        }),
        r is Ok ==> final(buyer_info).ido_tokens_claimed >= old(buyer_info).ido_tokens_claimed,
        r is Ok && price::sale_amount_of(
            old(buyer_info).spend_pay_tokens as int,
            config.ido_token_price_ratio as int,
            config.ido_token_price_multiplier as int,
        ) <= old(buyer_info).ido_tokens_to_get ==> final(buyer_info).ido_tokens_claimed
            <= final(buyer_info).ido_tokens_to_get,
{
    if !config.is_funding_closed(now) {
        return Err(SaleError::FundingStillOpen);
    }
    if config.is_funding_canceled_by_admin() {
        return Err(SaleError::SaleCanceled);
    }
    if !config.is_ido_token_funded_to_contract {
        return Err(SaleError::NotFunded);
    }
    if !config.is_claiming_open {
        return Err(SaleError::ClaimingNotOpen);
    }
    if buyer_info.ido_tokens_claimed >= buyer_info.ido_tokens_to_get {
        return Err(SaleError::AlreadyFullyClaimed);
    }
    if !ledger.is_buyer(buyer) {
        return Err(SaleError::NotAnInvestor);
    }
    let basis = match config.calculate_ido_tokens_bought(buyer_info.spend_pay_tokens) {
        Ok(v) => v,
        Err(e) => {
            return Err(e);
        },
    };
    let incremental = match vesting::claimable_tokens(
        buyer_info.ido_tokens_to_get,
        buyer_info.ido_tokens_claimed,
        config.initial_percentage_allocation_ido_tokens,
        basis,
        config.start_date_of_claiming_tokens,
        config.end_date_of_claiming_tokens,
        now,
    ) {
        Ok(v) => v,
        Err(e) => {
            return Err(e);
        },
    };
    proof {
        if basis <= buyer_info.ido_tokens_to_get {
            vesting::lemma_scaled_div_le(
                basis as int,
                100,
                config.initial_percentage_allocation_ido_tokens as int,
            );
            vesting::lemma_claimable_to_date_bounds(
                buyer_info.ido_tokens_to_get as int,
                config.initial_percentage_allocation_ido_tokens as int,
                basis as int,
                config.start_date_of_claiming_tokens as int,
                config.end_date_of_claiming_tokens as int,
                now as int,
            );
        }
    }
    buyer_info.ido_tokens_claimed = buyer_info.ido_tokens_claimed + incremental;
    Ok(ClaimedIDOTokens { buyer, ido_tokens_to_get: incremental })
}

/// The part of the caller's entitlement vested by `now` and not yet
/// released, without touching anything: what a claim at `now` would release.
pub fn get_claimable_tokens(
    config: &AuthorizedSaleAccount,
    buyer_info: &BuyerInfo,
    now: i64,
) -> (r: Result<u128, SaleError>)
    requires
        config.wf(),
        config.claiming_window_wf(),
    ensures
        r is Ok <==> !price::sale_amount_overflows(
            buyer_info.spend_pay_tokens as int,
            config.ido_token_price_ratio as int,
            config.ido_token_price_multiplier as int,
        ) && vesting::vesting_ok(
            buyer_info.ido_tokens_to_get as int,
            buyer_info.ido_tokens_claimed as int,
            config.initial_percentage_allocation_ido_tokens as int,
            price::sale_amount_of(
                buyer_info.spend_pay_tokens as int,
                config.ido_token_price_ratio as int,
                config.ido_token_price_multiplier as int,
            ),
            config.start_date_of_claiming_tokens as int,
            config.end_date_of_claiming_tokens as int,
            now as int,
        ),
        r matches Ok(v) ==> buyer_info.ido_tokens_claimed + v == vesting::claimable_to_date(
            buyer_info.ido_tokens_to_get as int,
            config.initial_percentage_allocation_ido_tokens as int,
            price::sale_amount_of(
                buyer_info.spend_pay_tokens as int,
                config.ido_token_price_ratio as int,
                config.ido_token_price_multiplier as int,
            ),
            config.start_date_of_claiming_tokens as int,
            config.end_date_of_claiming_tokens as int,
            now as int,
        ),
        r matches Err(e) ==> (e == SaleError::ArithmeticOverflow || e
            == SaleError::ArithmeticUnderflow),
{
    let basis = match config.calculate_ido_tokens_bought(buyer_info.spend_pay_tokens) {
        Ok(v) => v,
        Err(e) => {
            return Err(e);
        },
    };
    vesting::claimable_tokens(
        buyer_info.ido_tokens_to_get,
        buyer_info.ido_tokens_claimed,
        config.initial_percentage_allocation_ido_tokens,
        basis,
        config.start_date_of_claiming_tokens,
        config.end_date_of_claiming_tokens,
        now,
    )
}

/// The configuration with only the canceled flag set.
pub open spec fn with_canceled(config: AuthorizedSaleAccount) -> AuthorizedSaleAccount {
    AuthorizedSaleAccount { is_funding_canceled: true, ..config }
}

/// Cancels the sale; investors may then reclaim what they spent.  Canceling
/// an already canceled sale changes nothing further.
pub fn cancel_ido_sale(config: &mut AuthorizedSaleAccount, caller: InvestorId) -> (r: Result<
    (),
    SaleError,
>)
    ensures
        r is Ok <==> caller == old(config).admin,
        r matches Err(e) ==> *final(config) == *old(config) && e == SaleError::Unauthorized,
        r is Ok ==> *final(config) == with_canceled(*old(config)),
{
    if !config.is_admin(caller) {
        return Err(SaleError::Unauthorized);
    }
    config.is_funding_canceled = true;
    Ok(())
}

/// Returns the caller's spent amount after a cancellation, zeroing it and
/// marking the account refunded, once.  The returned value is what the
/// caller's settlement layer must pay back.
pub fn claim_payed_tokens_on_ido_cancel(
    config: &AuthorizedSaleAccount,
    buyer_info: &mut BuyerInfo,
) -> (r: Result<u128, SaleError>)
    ensures
        r is Ok <==> config.is_funding_canceled && !old(buyer_info).has_claimed_pay_tokens,
        r matches Err(e) ==> *final(buyer_info) == *old(buyer_info) && e == (
        if !config.is_funding_canceled {
            SaleError::NotCanceled
        } else {
            SaleError::AlreadyRefunded
        }),
        r matches Ok(returned) ==> ({
            &&& returned == old(buyer_info).spend_pay_tokens
            &&& final(buyer_info).spend_pay_tokens == 0
            &&& final(buyer_info).has_claimed_pay_tokens
            &&& final(buyer_info).ido_tokens_to_get == old(buyer_info).ido_tokens_to_get
            &&& final(buyer_info).ido_tokens_claimed == old(buyer_info).ido_tokens_claimed
        }),
{
    if config.is_funding_not_canceled_by_admin() {
        return Err(SaleError::NotCanceled);
    }
    if buyer_info.has_claimed_pay_tokens {
        return Err(SaleError::AlreadyRefunded);
    }
    let pay_tokens_to_return = buyer_info.spend_pay_tokens;
    buyer_info.spend_pay_tokens = 0;
    buyer_info.has_claimed_pay_tokens = true;
    Ok(pay_tokens_to_return)
}

/// Releases spent payment assets to the admin once funding closed; the
/// settlement itself is the caller's substrate's work.
pub fn withdraw_pay_tokens(
    config: &AuthorizedSaleAccount,
    caller: InvestorId,
    pay_tokens_to_withdraw: u128,
    now: i64,
) -> (r: Result<u128, SaleError>)
    ensures
        r is Ok <==> caller == config.admin && now > config.end_date_funding,
        r matches Ok(v) ==> v == pay_tokens_to_withdraw,
        r matches Err(e) ==> e == (if caller != config.admin {
            SaleError::Unauthorized
        } else {
            SaleError::FundingStillOpen
        }),
{
    if !config.is_admin(caller) {
        return Err(SaleError::Unauthorized);
    }
    if !config.is_funding_closed(now) {
        return Err(SaleError::FundingStillOpen);
    }
    Ok(pay_tokens_to_withdraw)
}

/// Releases unsold sale assets to the admin once funding closed; the
/// settlement itself is the caller's substrate's work.
pub fn withdraw_unsold_ido_tokens(
    config: &AuthorizedSaleAccount,
    caller: InvestorId,
    ido_tokens_to_withdraw: u128,
    now: i64,
) -> (r: Result<u128, SaleError>)
    ensures
        r is Ok <==> caller == config.admin && now > config.end_date_funding,
        r matches Ok(v) ==> v == ido_tokens_to_withdraw,
        r matches Err(e) ==> e == (if caller != config.admin {
            SaleError::Unauthorized
        } else {
            SaleError::FundingStillOpen
        }),
{
    if !config.is_admin(caller) {
        return Err(SaleError::Unauthorized);
    }
    if !config.is_funding_closed(now) {
        return Err(SaleError::FundingStillOpen);
    }
    Ok(ido_tokens_to_withdraw)
}

} // verus!
