//! The three records one sale lives in: the admin-controlled configuration,
//! the aggregate ledger, and one account per investor.  The surrounding
//! runtime stores them and hands them to the operations in `sale`.

use vstd::prelude::*;

use crate::error::SaleError;
use crate::price;
use crate::price::PRICE_MULTIPLIER;

verus! {

/// The identity of a participant, as the surrounding runtime keys accounts.
pub type InvestorId = u64;

/// Admin-controlled parameters governing one sale.  Created once, mutated
/// only through the admin-guarded operations in `sale`.
#[derive(Clone, Copy, Debug, PartialEq, Eq, Structural)]
pub struct AuthorizedSaleAccount {
    /// The identity allowed to run the admin-guarded operations.
    pub admin: InvestorId,
    /// Price of the sale asset in payment-asset value, scaled by the
    /// multiplier.
    pub ido_token_price_ratio: u64,
    /// Fixed-point scale of the ratio; always [`PRICE_MULTIPLIER`].
    pub ido_token_price_multiplier: u64,
    /// The cliff: the percentage of the entitlement released at once when
    /// claiming starts.  Zero means no cliff.
    pub initial_percentage_allocation_ido_tokens: u8,
    /// Total sale-asset liquidity supplied; set exactly once, at funding.
    pub tokens_for_sale: u128,
    /// First instant at which purchases are accepted.
    pub start_date_funding: i64,
    /// Last instant at which purchases are accepted.
    pub end_date_funding: i64,
    /// Instant at which linear vesting starts; set when claiming opens.
    pub start_date_of_claiming_tokens: i64,
    /// Instant at which the entitlement is fully vested.
    pub end_date_of_claiming_tokens: i64,
    /// Whether the sale-asset liquidity was supplied.
    pub is_ido_token_funded_to_contract: bool,
    /// Whether the admin canceled the sale; never unset.
    pub is_funding_canceled: bool,
    /// Whether each investor must take their whole allocation in one
    /// purchase.
    pub in_one_transaction: bool,
    /// Whether investors may claim; set together with the vesting start.
    pub is_claiming_open: bool,
}

impl AuthorizedSaleAccount {
    /// What every sale configuration keeps from creation on: a usable price
    /// and a percentage.  Creation establishes it; every operation preserves
    /// it.
    pub open spec fn wf(self) -> bool {
        &&& self.ido_token_price_ratio >= 1
        &&& self.ido_token_price_multiplier == PRICE_MULTIPLIER
        &&& self.initial_percentage_allocation_ido_tokens <= 100
    }

    /// A claiming window the vesting schedule is defined over: it opens
    /// before it closes, and its length fits the instant type.
    pub open spec fn claiming_window_wf(self) -> bool {
        &&& self.start_date_of_claiming_tokens < self.end_date_of_claiming_tokens
        &&& self.end_date_of_claiming_tokens - self.start_date_of_claiming_tokens <= i64::MAX
    }

    /// Whether the funding window has closed.
    pub fn is_funding_closed(&self, now: i64) -> (r: bool)
        ensures
            r == (now > self.end_date_funding),
    {
        now > self.end_date_funding
    }

    /// Whether the funding window is open.
    pub fn is_funding_open_and_running(&self, now: i64) -> (r: bool)
        ensures
            r == (self.start_date_funding <= now && now <= self.end_date_funding),
    {
        self.start_date_funding <= now && now <= self.end_date_funding
    }

    /// Whether the admin canceled the sale.
    pub fn is_funding_canceled_by_admin(&self) -> (r: bool)
        ensures
            r == self.is_funding_canceled,
    {
        self.is_funding_canceled
    }

    /// Whether the sale still stands.
    pub fn is_funding_not_canceled_by_admin(&self) -> (r: bool)
        ensures
            r == !self.is_funding_canceled,
    {
        !self.is_funding_canceled
    }

    /// Whether `caller` may run the admin-guarded operations of this sale.
    pub fn is_admin(&self, caller: InvestorId) -> (r: bool)
        ensures
            r == (caller == self.admin),
    {
        caller == self.admin
    }

    /// The payment-asset amount needed to acquire a sale-asset allocation at
    /// this sale's price.
    pub fn calculate_max_payment_token(&self, ido_tokens_to_get: u128) -> (r: Result<
        u128,
        SaleError,
    >)
        requires
            self.wf(),
        ensures
            r is Ok <==> !price::payment_amount_overflows(
                ido_tokens_to_get as int,
                self.ido_token_price_ratio as int,
            ),
            r matches Ok(p) ==> p == price::payment_amount_of(
                ido_tokens_to_get as int,
                self.ido_token_price_ratio as int,
                self.ido_token_price_multiplier as int,
            ),
            r matches Err(e) ==> e == SaleError::ArithmeticOverflow,
    {
        price::to_payment_amount(
            ido_tokens_to_get,
            self.ido_token_price_ratio,
            self.ido_token_price_multiplier,
        )
    }

    /// The sale-asset amount a payment-asset amount buys at this sale's
    /// price.
    pub fn calculate_ido_tokens_bought(&self, amount_in_pay_token: u128) -> (r: Result<
        u128,
        SaleError,
    >)
        requires
            self.wf(),
        ensures
            r is Ok <==> !price::sale_amount_overflows(
                amount_in_pay_token as int,
                self.ido_token_price_ratio as int,
                self.ido_token_price_multiplier as int,
            ),
            r matches Ok(s) ==> s == price::sale_amount_of(
                amount_in_pay_token as int,
                self.ido_token_price_ratio as int,
                self.ido_token_price_multiplier as int,
            ),
            r matches Err(e) ==> e == SaleError::ArithmeticOverflow,
    {
        price::to_sale_amount(
            amount_in_pay_token,
            self.ido_token_price_ratio,
            self.ido_token_price_multiplier,
        )
    }
}

/// Aggregate counters over all investors of one sale, plus the registry of
/// everyone who purchased.  The engine itself does not cap the registry's
/// length; bounding it is the storing runtime's concern.
#[derive(Debug)]
pub struct SaleAccount {
    /// Sum of every investor's spent payment-asset amount.
    pub total_spend_pay_tokens: u128,
    /// Sum of every investor's sale-asset entitlement.
    pub total_allocated_ido_tokens: u128,
    /// How many distinct investors have purchased.
    pub investor_count: u64,
    /// The investors who have purchased, in order of first purchase.
    pub buyers_list: Vec<InvestorId>,
}

impl SaleAccount {
    /// Whether `buyer` is in the registry.
    pub fn is_buyer(&self, buyer: InvestorId) -> (r: bool)
        ensures
            r == self.buyers_list@.contains(buyer),
    {
        let n = self.buyers_list.len();
        let mut i: usize = 0;
        while i < n
            invariant
                i <= n,
                n == self.buyers_list@.len(),
                forall|j: int| 0 <= j < i ==> self.buyers_list@[j] != buyer,
            decreases n - i,
        {
            if self.buyers_list[i] == buyer {
                return true;
            }
            i += 1;
        }
        false
    }

    /// A copy of the registry.
    pub fn get_buyers(&self) -> (r: Vec<InvestorId>)
        ensures
            r@ == self.buyers_list@,
    {
        let n = self.buyers_list.len();
        let mut out: Vec<InvestorId> = Vec::new();
        let mut i: usize = 0;
        while i < n
            invariant
                i <= n,
                n == self.buyers_list@.len(),
                out@ == self.buyers_list@.take(i as int),
            decreases n - i,
        {
            out.push(self.buyers_list[i]);
            i += 1;
        }
        proof {
            assert(self.buyers_list@.take(n as int) =~= self.buyers_list@);
        }
        out
    }

    /// The sale-wide totals: first what was allocated, then what was spent.
    pub fn total_ido_tokens_bought_and_pay_tokens_spend(&self) -> (r: Vec<u128>)
        ensures
            r@.len() == 2,
            r@[0] == self.total_allocated_ido_tokens,
            r@[1] == self.total_spend_pay_tokens,
    {
        let mut out: Vec<u128> = Vec::new();
        out.push(self.total_allocated_ido_tokens);
        out.push(self.total_spend_pay_tokens);
        out
    }
}

/// One investor's standing in one sale.
#[derive(Clone, Copy, Debug, PartialEq, Eq, Structural)]
pub struct BuyerInfo {
    /// Cumulative payment-asset amount this investor contributed.
    pub spend_pay_tokens: u128,
    /// Cumulative sale-asset amount this investor is owed.
    pub ido_tokens_to_get: u128,
    /// Cumulative sale-asset amount already released to this investor.
    pub ido_tokens_claimed: u128,
    /// Whether the spent amount was reclaimed after a cancellation; one-way.
    pub has_claimed_pay_tokens: bool,
}

impl BuyerInfo {
    /// The account's own totals: first what it is owed, then what it spent.
    pub fn get_total_ido_tokens_bought_and_pay_tokens_spend(&self) -> (r: Vec<u128>)
        ensures
            r@.len() == 2,
            r@[0] == self.ido_tokens_to_get,
            r@[1] == self.spend_pay_tokens,
    {
        let mut out: Vec<u128> = Vec::new();
        out.push(self.ido_tokens_to_get);
        out.push(self.spend_pay_tokens);
        out
    }
}

} // verus!
