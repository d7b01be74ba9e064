use mangamon_sale::error::SaleError;
use mangamon_sale::sale::{
    buy, cancel_ido_sale, claim_payed_tokens_on_ido_cancel, claim_tokens, creat_buyer_info,
    enable_claiming, fund_to_contract, get_claimable_tokens, initialize,
    set_end_date_of_claiming_tokens, set_initial_percentage_allocation_ido_tokens,
    withdraw_pay_tokens,
};
use mangamon_sale::state::{AuthorizedSaleAccount, SaleAccount};

const ADMIN: u64 = 1;
const ALICE: u64 = 7;
const ALLOCATION: u128 = 100_000_000_000_000_000_000;

fn sale() -> (AuthorizedSaleAccount, SaleAccount) {
    initialize(ADMIN, 4000, 100, 200, 1000, false).unwrap()
}

#[test]
fn invalid_window_refused() {
    assert_eq!(
        initialize(ADMIN, 4000, 200, 200, 1000, false).err(),
        Some(SaleError::InvalidWindow)
    );
    assert_eq!(
        initialize(ADMIN, 4000, 300, 200, 1000, false).err(),
        Some(SaleError::InvalidWindow)
    );
}

#[test]
fn non_admin_refused_everywhere() {
    let (mut config, ledger) = sale();
    assert_eq!(
        set_initial_percentage_allocation_ido_tokens(&mut config, ALICE, 10),
        Err(SaleError::Unauthorized)
    );
    assert_eq!(
        set_end_date_of_claiming_tokens(&mut config, ALICE, 1200),
        Err(SaleError::Unauthorized)
    );
    assert_eq!(
        enable_claiming(&mut config, ALICE, true, 300).err(),
        Some(SaleError::Unauthorized)
    );
    assert_eq!(
        fund_to_contract(&mut config, &ledger, ALICE, 1, 250),
        Err(SaleError::Unauthorized)
    );
    assert_eq!(cancel_ido_sale(&mut config, ALICE), Err(SaleError::Unauthorized));
    assert_eq!(
        withdraw_pay_tokens(&config, ALICE, 1, 250),
        Err(SaleError::Unauthorized)
    );
    assert_eq!(config.initial_percentage_allocation_ido_tokens, 0);
    assert!(!config.is_claiming_open);
    assert!(!config.is_funding_canceled);
}

#[test]
fn percentage_above_hundred_refused() {
    let (mut config, _) = sale();
    assert_eq!(
        set_initial_percentage_allocation_ido_tokens(&mut config, ADMIN, 101),
        Err(SaleError::PercentageOutOfRange)
    );
    assert_eq!(config.initial_percentage_allocation_ido_tokens, 0);
}

#[test]
fn settings_frozen_once_claiming_open() {
    let (mut config, _) = sale();
    enable_claiming(&mut config, ADMIN, true, 300).unwrap();
    assert_eq!(
        set_initial_percentage_allocation_ido_tokens(&mut config, ADMIN, 10),
        Err(SaleError::ClaimingAlreadyOpen)
    );
    assert_eq!(
        set_end_date_of_claiming_tokens(&mut config, ADMIN, 1200),
        Err(SaleError::ClaimingAlreadyOpen)
    );
}

#[test]
fn funding_during_window_refused() {
    let (mut config, ledger) = sale();
    assert_eq!(
        fund_to_contract(&mut config, &ledger, ADMIN, 1, 150),
        Err(SaleError::FundingStillOpen)
    );
}

#[test]
fn funding_twice_refused() {
    let (mut config, ledger) = sale();
    fund_to_contract(&mut config, &ledger, ADMIN, 1, 250).unwrap();
    assert_eq!(
        fund_to_contract(&mut config, &ledger, ADMIN, 1, 250),
        Err(SaleError::AlreadyFunded)
    );
}

#[test]
fn funding_below_allocation_refused() {
    let (mut config, mut ledger) = sale();
    let mut alice = creat_buyer_info();
    buy(&config, &mut ledger, &mut alice, ALICE, 40_000_000, ALLOCATION, 150).unwrap();
    assert_eq!(
        fund_to_contract(&mut config, &ledger, ADMIN, ALLOCATION - 1, 250),
        Err(SaleError::UnderAllocated)
    );
    fund_to_contract(&mut config, &ledger, ADMIN, ALLOCATION, 250).unwrap();
}

#[test]
fn funding_a_canceled_sale_refused() {
    let (mut config, ledger) = sale();
    cancel_ido_sale(&mut config, ADMIN).unwrap();
    assert_eq!(
        fund_to_contract(&mut config, &ledger, ADMIN, 1, 250),
        Err(SaleError::SaleCanceled)
    );
}

#[test]
fn purchase_in_canceled_sale_refused() {
    let (mut config, mut ledger) = sale();
    let mut alice = creat_buyer_info();
    cancel_ido_sale(&mut config, ADMIN).unwrap();
    assert_eq!(
        buy(&config, &mut ledger, &mut alice, ALICE, 40_000_000, ALLOCATION, 150),
        Err(SaleError::SaleCanceled)
    );
}

#[test]
fn purchase_of_nothing_refused() {
    let (config, mut ledger) = sale();
    let mut alice = creat_buyer_info();
    assert_eq!(
        buy(&config, &mut ledger, &mut alice, ALICE, 0, ALLOCATION, 150),
        Err(SaleError::InvalidAmount)
    );
}

#[test]
fn purchase_beyond_allocation_refused() {
    let (config, mut ledger) = sale();
    let mut alice = creat_buyer_info();
    // The allocation caps the payment at 40_000_000.
    assert_eq!(
        buy(&config, &mut ledger, &mut alice, ALICE, 40_000_001, ALLOCATION, 150),
        Err(SaleError::AllocationExceeded)
    );
    // Cumulatively as well: a second purchase may not pass the cap.
    buy(&config, &mut ledger, &mut alice, ALICE, 30_000_000, ALLOCATION, 150).unwrap();
    assert_eq!(
        buy(&config, &mut ledger, &mut alice, ALICE, 10_000_001, ALLOCATION, 160),
        Err(SaleError::AllocationExceeded)
    );
}

#[test]
fn partial_purchase_refused_when_single_transaction() {
    let (config, mut ledger) = initialize(ADMIN, 4000, 100, 200, 1000, true).unwrap();
    let mut alice = creat_buyer_info();
    assert_eq!(
        buy(&config, &mut ledger, &mut alice, ALICE, 20_000_000, ALLOCATION, 150),
        Err(SaleError::PartialPurchaseNotAllowed)
    );
    buy(&config, &mut ledger, &mut alice, ALICE, 40_000_000, ALLOCATION, 150).unwrap();
}

#[test]
fn purchase_with_overflowing_price_refused() {
    let (config, mut ledger) = sale();
    let mut alice = creat_buyer_info();
    assert_eq!(
        buy(&config, &mut ledger, &mut alice, ALICE, u128::MAX, ALLOCATION, 150),
        Err(SaleError::ArithmeticOverflow)
    );
    assert_eq!(ledger.total_spend_pay_tokens, 0);
}

#[test]
fn claim_before_funding_closed_refused() {
    let (config, ledger) = sale();
    let mut alice = creat_buyer_info();
    assert_eq!(
        claim_tokens(&config, &ledger, &mut alice, ALICE, 150),
        Err(SaleError::FundingStillOpen)
    );
}

#[test]
fn claim_in_canceled_sale_refused() {
    let (mut config, ledger) = sale();
    let mut alice = creat_buyer_info();
    cancel_ido_sale(&mut config, ADMIN).unwrap();
    assert_eq!(
        claim_tokens(&config, &ledger, &mut alice, ALICE, 250),
        Err(SaleError::SaleCanceled)
    );
}

#[test]
fn claim_before_funding_supplied_refused() {
    let (config, mut ledger) = sale();
    let mut alice = creat_buyer_info();
    buy(&config, &mut ledger, &mut alice, ALICE, 40_000_000, ALLOCATION, 150).unwrap();
    assert_eq!(
        claim_tokens(&config, &ledger, &mut alice, ALICE, 250),
        Err(SaleError::NotFunded)
    );
}

#[test]
fn claim_before_claiming_open_refused() {
    let (mut config, mut ledger) = sale();
    let mut alice = creat_buyer_info();
    buy(&config, &mut ledger, &mut alice, ALICE, 40_000_000, ALLOCATION, 150).unwrap();
    fund_to_contract(&mut config, &ledger, ADMIN, ALLOCATION, 250).unwrap();
    assert_eq!(
        claim_tokens(&config, &ledger, &mut alice, ALICE, 250),
        Err(SaleError::ClaimingNotOpen)
    );
}

#[test]
fn claim_by_non_buyer_refused() {
    let (mut config, mut ledger) = sale();
    let mut alice = creat_buyer_info();
    let mut stranger = creat_buyer_info();
    buy(&config, &mut ledger, &mut alice, ALICE, 40_000_000, ALLOCATION, 150).unwrap();
    fund_to_contract(&mut config, &ledger, ADMIN, ALLOCATION, 250).unwrap();
    enable_claiming(&mut config, ADMIN, true, 300).unwrap();
    // An empty account is refused as fully claimed before the registry is
    // even consulted, per the check order.
    assert_eq!(
        claim_tokens(&config, &ledger, &mut stranger, 99, 650),
        Err(SaleError::AlreadyFullyClaimed)
    );
    // An account with an entitlement, under an identity outside the
    // registry, is what NotAnInvestor refuses.
    assert_eq!(
        claim_tokens(&config, &ledger, &mut alice, 99, 650),
        Err(SaleError::NotAnInvestor)
    );
}

#[test]
fn claim_after_everything_claimed_refused() {
    let (mut config, mut ledger) = sale();
    let mut alice = creat_buyer_info();
    buy(&config, &mut ledger, &mut alice, ALICE, 40_000_000, ALLOCATION, 150).unwrap();
    fund_to_contract(&mut config, &ledger, ADMIN, ALLOCATION, 250).unwrap();
    enable_claiming(&mut config, ADMIN, true, 300).unwrap();
    claim_tokens(&config, &ledger, &mut alice, ALICE, 1001).unwrap();
    assert_eq!(alice.ido_tokens_claimed, alice.ido_tokens_to_get);
    assert_eq!(
        claim_tokens(&config, &ledger, &mut alice, ALICE, 1002),
        Err(SaleError::AlreadyFullyClaimed)
    );
}

#[test]
fn claim_before_start_without_cliff_refused() {
    let (mut config, mut ledger) = sale();
    let mut alice = creat_buyer_info();
    buy(&config, &mut ledger, &mut alice, ALICE, 40_000_000, ALLOCATION, 150).unwrap();
    fund_to_contract(&mut config, &ledger, ADMIN, ALLOCATION, 250).unwrap();
    enable_claiming(&mut config, ADMIN, true, 300).unwrap();
    assert_eq!(
        claim_tokens(&config, &ledger, &mut alice, ALICE, 299),
        Err(SaleError::ArithmeticUnderflow)
    );
    assert_eq!(alice.ido_tokens_claimed, 0);
}

#[test]
fn preview_mirrors_claim_errors() {
    let (mut config, _) = sale();
    enable_claiming(&mut config, ADMIN, true, 300).unwrap();
    let alice = creat_buyer_info();
    assert_eq!(
        get_claimable_tokens(&config, &alice, 299),
        Err(SaleError::ArithmeticUnderflow)
    );
    assert_eq!(get_claimable_tokens(&config, &alice, 300), Ok(0));
}

#[test]
fn refund_without_cancellation_refused() {
    let (config, _) = sale();
    let mut alice = creat_buyer_info();
    assert_eq!(
        claim_payed_tokens_on_ido_cancel(&config, &mut alice),
        Err(SaleError::NotCanceled)
    );
}
