//! The library's laws: properties that tie several operations or records
//! together, stated over the same spec functions the operations' contracts
//! use, and proved once and for all.
//!
//! The ledger-wide laws speak of the family of all investor accounts of one
//! sale as two parallel sequences — the identities in creation order and the
//! account each identity owns — since each operation only ever sees the one
//! account it touches.

use vstd::prelude::*;

use vstd::arithmetic::div_mod::{lemma_div_by_multiple, lemma_div_pos_is_pos, lemma_remainder};
use vstd::arithmetic::mul::{lemma_mul_is_associative, lemma_mul_nonnegative};

use crate::price;
use crate::price::{IDO_TOKEN_SCALE, PRICE_MULTIPLIER};
use crate::state::{BuyerInfo, InvestorId, SaleAccount};
use crate::vesting;

verus! {

/// The payment-asset total the accounts have spent.
pub open spec fn sum_spent(accounts: Seq<BuyerInfo>) -> int
    decreases accounts.len(),
{
    if accounts.len() == 0 {
        0
    } else {
        accounts.first().spend_pay_tokens + sum_spent(accounts.drop_first())
    }
}

/// The sale-asset total the accounts are owed.
pub open spec fn sum_entitled(accounts: Seq<BuyerInfo>) -> int
    decreases accounts.len(),
{
    if accounts.len() == 0 {
        0
    } else {
        accounts.first().ido_tokens_to_get + sum_entitled(accounts.drop_first())
    }
}

/// Appending an account adds its amounts to both sums.
pub proof fn lemma_sums_push(accounts: Seq<BuyerInfo>, b: BuyerInfo)
    ensures
        sum_spent(accounts.push(b)) == sum_spent(accounts) + b.spend_pay_tokens,
        sum_entitled(accounts.push(b)) == sum_entitled(accounts) + b.ido_tokens_to_get,
    decreases accounts.len(),
{
    if accounts.len() == 0 {
        assert(accounts.push(b).drop_first() =~= accounts);
    } else {
        assert(accounts.push(b).drop_first() =~= accounts.drop_first().push(b));
        lemma_sums_push(accounts.drop_first(), b);
    }
}

/// Replacing one account shifts both sums by exactly its differences.
pub proof fn lemma_sums_update(accounts: Seq<BuyerInfo>, i: int, b: BuyerInfo)
    requires
        0 <= i < accounts.len(),
    ensures
        sum_spent(accounts.update(i, b)) == sum_spent(accounts) - accounts[i].spend_pay_tokens
            + b.spend_pay_tokens,
        sum_entitled(accounts.update(i, b)) == sum_entitled(accounts)
            - accounts[i].ido_tokens_to_get + b.ido_tokens_to_get,
    decreases i,
{
    if i == 0 {
        assert(accounts.update(0, b).drop_first() =~= accounts.drop_first());
        assert(accounts.update(0, b).first() == b);
    } else {
        assert(accounts.update(i, b).drop_first() =~= accounts.drop_first().update(i - 1, b));
        assert(accounts.update(i, b).first() == accounts.first());
        lemma_sums_update(accounts.drop_first(), i - 1, b);
        assert(accounts.drop_first()[i - 1] == accounts[i]);
    }
}

/// The ledger's registry against the family of accounts: the count equals
/// the registry's length, nobody is listed twice, only account holders are
/// listed; whoever has spent is listed, whoever is listed has spent or was
/// refunded, and a refund happens only in a canceled sale.
pub open spec fn registry_consistent(
    ledger: SaleAccount,
    ids: Seq<InvestorId>,
    accounts: Seq<BuyerInfo>,
    canceled: bool,
) -> bool {
    &&& ids.len() == accounts.len()
    &&& ids.no_duplicates()
    &&& ledger.buyers_list@.no_duplicates()
    &&& ledger.investor_count == ledger.buyers_list@.len()
    &&& forall|k: int|
        0 <= k < ledger.buyers_list@.len() ==> ids.contains(#[trigger] ledger.buyers_list@[k])
    &&& forall|i: int|
        0 <= i < accounts.len() && (#[trigger] accounts[i]).spend_pay_tokens > 0
            ==> ledger.buyers_list@.contains(ids[i])
    &&& forall|i: int|
        0 <= i < ids.len() && ledger.buyers_list@.contains(#[trigger] ids[i])
            ==> accounts[i].spend_pay_tokens > 0 || accounts[i].has_claimed_pay_tokens
    &&& forall|i: int|
        0 <= i < accounts.len() && (#[trigger] accounts[i]).has_claimed_pay_tokens ==> canceled
}

/// The ledger's totals are the sums over the whole family of accounts.
pub open spec fn totals_consistent(ledger: SaleAccount, accounts: Seq<BuyerInfo>) -> bool {
    &&& ledger.total_spend_pay_tokens == sum_spent(accounts)
    &&& ledger.total_allocated_ido_tokens == sum_entitled(accounts)
}

/// A freshly created ledger is consistent with a sale with no accounts.
pub proof fn lemma_initial_ledger_consistent(ledger: SaleAccount, canceled: bool)
    requires
        ledger.total_spend_pay_tokens == 0,
        ledger.total_allocated_ido_tokens == 0,
        ledger.investor_count == 0,
        ledger.buyers_list@.len() == 0,
    ensures
        registry_consistent(ledger, Seq::empty(), Seq::empty(), canceled),
        totals_consistent(ledger, Seq::empty()),
{
}

/// Creating one more zeroed account, under an identity that has none yet,
/// keeps both the registry and the totals consistent.
pub proof fn lemma_register_preserves_consistency(
    ledger: SaleAccount,
    ids: Seq<InvestorId>,
    accounts: Seq<BuyerInfo>,
    canceled: bool,
    id: InvestorId,
    fresh: BuyerInfo,
)
    requires
        registry_consistent(ledger, ids, accounts, canceled),
        totals_consistent(ledger, accounts),
        !ids.contains(id),
        fresh.spend_pay_tokens == 0,
        fresh.ido_tokens_to_get == 0,
        !fresh.has_claimed_pay_tokens,
    ensures
        registry_consistent(ledger, ids.push(id), accounts.push(fresh), canceled),
        totals_consistent(ledger, accounts.push(fresh)),
{
    lemma_sums_push(accounts, fresh);
    let new_ids = ids.push(id);
    let new_accounts = accounts.push(fresh);
    assert forall|i: int, j: int|
        0 <= i < new_ids.len() && 0 <= j < new_ids.len() && i != j implies new_ids[i]
        != new_ids[j] by {
        if i < ids.len() && j < ids.len() {
        } else if j == ids.len() {
            assert(ids.contains(ids[i]) == true);
        } else {
            assert(ids.contains(ids[j]) == true);
        }
    }
    assert forall|k: int| 0 <= k < ledger.buyers_list@.len() implies new_ids.contains(
        #[trigger] ledger.buyers_list@[k],
    ) by {
        let w = choose|w: int| 0 <= w < ids.len() && ids[w] == ledger.buyers_list@[k];
        assert(new_ids[w] == ledger.buyers_list@[k]);
    }
    assert(!ledger.buyers_list@.contains(id)) by {
        if ledger.buyers_list@.contains(id) {
            let k = choose|k: int|
                0 <= k < ledger.buyers_list@.len() && ledger.buyers_list@[k] == id;
            assert(ids.contains(ledger.buyers_list@[k]));
        }
    }
    assert forall|i: int|
        0 <= i < new_accounts.len() && (#[trigger] new_accounts[i]).spend_pay_tokens > 0
        implies ledger.buyers_list@.contains(new_ids[i]) by {
        assert(i < accounts.len());
        assert(accounts[i] == new_accounts[i]);
    }
    assert forall|i: int|
        0 <= i < new_ids.len() && ledger.buyers_list@.contains(#[trigger] new_ids[i])
        implies new_accounts[i].spend_pay_tokens > 0 || new_accounts[i].has_claimed_pay_tokens by {
        assert(i < ids.len());
        assert(ids[i] == new_ids[i]);
        assert(accounts[i] == new_accounts[i]);
    }
    assert forall|i: int|
        0 <= i < new_accounts.len() && (#[trigger] new_accounts[i]).has_claimed_pay_tokens
        implies canceled by {
        assert(i < accounts.len());
        assert(accounts[i] == new_accounts[i]);
    }
}

/// One purchase keeps both the registry and the totals consistent: the
/// ledger's totals stay the sums of all accounts' amounts, the investor
/// count stays the registry's length, and nobody enters the registry twice.
pub proof fn lemma_buy_preserves_consistency(
    old_ledger: SaleAccount,
    new_ledger: SaleAccount,
    old_account: BuyerInfo,
    new_account: BuyerInfo,
    ids: Seq<InvestorId>,
    accounts: Seq<BuyerInfo>,
    i: int,
    buyer: InvestorId,
    amount: int,
    bought: int,
    canceled: bool,
)
    requires
        registry_consistent(old_ledger, ids, accounts, canceled),
        totals_consistent(old_ledger, accounts),
        0 <= i < ids.len(),
        ids[i] == buyer,
        accounts[i] == old_account,
        !canceled,
        amount > 0,
        bought >= 0,
        new_account.spend_pay_tokens == old_account.spend_pay_tokens + amount,
        new_account.ido_tokens_to_get == old_account.ido_tokens_to_get + bought,
        new_account.has_claimed_pay_tokens == old_account.has_claimed_pay_tokens,
        new_ledger.total_spend_pay_tokens == old_ledger.total_spend_pay_tokens + amount,
        new_ledger.total_allocated_ido_tokens == old_ledger.total_allocated_ido_tokens + bought,
        new_ledger.investor_count == old_ledger.investor_count + (
        if old_account.spend_pay_tokens == 0 {
            1int
        } else {
            0int
        }),
        new_ledger.buyers_list@ == (if old_ledger.buyers_list@.contains(buyer) {
            old_ledger.buyers_list@
        } else {
            old_ledger.buyers_list@.push(buyer)
        }),
    ensures
        registry_consistent(new_ledger, ids, accounts.update(i, new_account), canceled),
        totals_consistent(new_ledger, accounts.update(i, new_account)),
{
    lemma_sums_update(accounts, i, new_account);
    let new_accounts = accounts.update(i, new_account);
    assert(!old_account.has_claimed_pay_tokens);
    if old_ledger.buyers_list@.contains(buyer) {
        // The registry is unchanged; only the buyer's own account changed,
        // and it keeps a positive spent amount.
        assert(old_account.spend_pay_tokens > 0 || old_account.has_claimed_pay_tokens);
        assert forall|j: int|
            0 <= j < new_accounts.len() && (#[trigger] new_accounts[j]).spend_pay_tokens > 0
            implies new_ledger.buyers_list@.contains(ids[j]) by {
            if j != i {
                assert(new_accounts[j] == accounts[j]);
            }
        }
        assert forall|j: int|
            0 <= j < ids.len() && new_ledger.buyers_list@.contains(#[trigger] ids[j])
            implies new_accounts[j].spend_pay_tokens > 0
            || new_accounts[j].has_claimed_pay_tokens by {
            if j != i {
                assert(new_accounts[j] == accounts[j]);
            }
        }
        assert forall|j: int|
            0 <= j < new_accounts.len() && (#[trigger] new_accounts[j]).has_claimed_pay_tokens
            implies canceled by {
            if j != i {
                assert(new_accounts[j] == accounts[j]);
            }
            assert(!new_accounts[i].has_claimed_pay_tokens);
        }
    } else {
        // A first purchase: the buyer had spent nothing, enters the registry
        // once, and the count grows with the registry.
        assert(old_account.spend_pay_tokens == 0);
        let old_list = old_ledger.buyers_list@;
        let new_list = new_ledger.buyers_list@;
        assert(new_list == old_list.push(buyer));
        assert forall|j: int, k: int|
            0 <= j < new_list.len() && 0 <= k < new_list.len() && j != k implies new_list[j]
            != new_list[k] by {
            if j < old_list.len() && k < old_list.len() {
                assert(old_list[j] == new_list[j]);
                assert(old_list[k] == new_list[k]);
            } else if k == old_list.len() {
                assert(old_list.contains(old_list[j]) == true);
            } else {
                assert(old_list.contains(old_list[k]) == true);
            }
        }
        assert forall|k: int| 0 <= k < new_list.len() implies ids.contains(
            #[trigger] new_list[k],
        ) by {
            if k < old_list.len() {
                assert(new_list[k] == old_list[k]);
                assert(ids.contains(old_list[k]));
            } else {
                assert(new_list[k] == buyer);
                assert(ids[i] == buyer);
            }
        }
        assert(new_list.contains(buyer)) by {
            assert(new_list[old_list.len() as int] == buyer);
        }
        assert forall|j: int|
            0 <= j < new_accounts.len() && (#[trigger] new_accounts[j]).spend_pay_tokens > 0
            implies new_list.contains(ids[j]) by {
            if j == i {
            } else {
                assert(new_accounts[j] == accounts[j]);
                assert(old_list.contains(ids[j]));
                let w = choose|w: int| 0 <= w < old_list.len() && old_list[w] == ids[j];
                assert(new_list[w] == ids[j]);
            }
        }
        assert forall|j: int|
            0 <= j < ids.len() && new_list.contains(#[trigger] ids[j])
            implies new_accounts[j].spend_pay_tokens > 0
            || new_accounts[j].has_claimed_pay_tokens by {
            if j != i {
                let w = choose|w: int| 0 <= w < new_list.len() && new_list[w] == ids[j];
                assert(w < old_list.len()) by {
                    if w == old_list.len() {
                        assert(new_list[w] == buyer);
                        assert(ids[j] == ids[i]);
                    }
                }
                assert(old_list[w] == ids[j]);
                assert(old_list.contains(ids[j]));
                assert(new_accounts[j] == accounts[j]);
            }
        }
        assert forall|j: int|
            0 <= j < new_accounts.len() && (#[trigger] new_accounts[j]).has_claimed_pay_tokens
            implies canceled by {
            if j != i {
                assert(new_accounts[j] == accounts[j]);
            }
            assert(!new_accounts[i].has_claimed_pay_tokens);
        }
    }
}

/// A refund keeps the registry consistent: it zeroes the refunded account's
/// spent amount, but the account stays marked, so the registry's length,
/// uniqueness and membership facts all survive.  The ledger's totals
/// deliberately do not cover refunds: they are the sums over what was
/// purchased.
pub proof fn lemma_refund_preserves_registry(
    ledger: SaleAccount,
    ids: Seq<InvestorId>,
    accounts: Seq<BuyerInfo>,
    i: int,
    new_account: BuyerInfo,
    canceled: bool,
)
    requires
        registry_consistent(ledger, ids, accounts, canceled),
        canceled,
        0 <= i < accounts.len(),
        new_account.spend_pay_tokens == 0,
        new_account.has_claimed_pay_tokens,
        new_account.ido_tokens_to_get == accounts[i].ido_tokens_to_get,
        new_account.ido_tokens_claimed == accounts[i].ido_tokens_claimed,
    ensures
        registry_consistent(ledger, ids, accounts.update(i, new_account), canceled),
{
    let new_accounts = accounts.update(i, new_account);
    assert forall|j: int|
        0 <= j < new_accounts.len() && (#[trigger] new_accounts[j]).spend_pay_tokens > 0
        implies ledger.buyers_list@.contains(ids[j]) by {
        assert(j != i);
        assert(new_accounts[j] == accounts[j]);
    }
    assert forall|j: int|
        0 <= j < ids.len() && ledger.buyers_list@.contains(#[trigger] ids[j])
        implies new_accounts[j].spend_pay_tokens > 0
        || new_accounts[j].has_claimed_pay_tokens by {
        if j != i {
            assert(new_accounts[j] == accounts[j]);
        }
    }
    assert forall|j: int|
        0 <= j < new_accounts.len() && (#[trigger] new_accounts[j]).has_claimed_pay_tokens
        implies canceled by {
    }
}

/// Claiming again with no time advance releases nothing: once the claimed
/// amount equals the schedule's cumulative value at `now`, a repeated claim
/// at `now` still succeeds and its increment is zero.
pub proof fn lemma_repeat_claim_yields_zero(
    entitled: int,
    claimed_before: int,
    percent: int,
    basis: int,
    start: int,
    end: int,
    now: int,
)
    requires
        vesting::vesting_ok(entitled, claimed_before, percent, basis, start, end, now),
    ensures
        ({
            let after = vesting::claimable_to_date(entitled, percent, basis, start, end, now);
            &&& vesting::vesting_ok(entitled, after, percent, basis, start, end, now)
            &&& vesting::claimable_to_date(entitled, percent, basis, start, end, now) - after == 0
        }),
{
}

/// Converting a sale-asset amount to its payment cost and back returns the
/// amount rounded down to a whole normalization unit of the sale asset:
/// nothing is ever gained, and what is lost is less than one unit of the
/// coarser scale.
pub proof fn lemma_conversion_round_trip(sale_amount: int, ratio: int)
    requires
        0 <= sale_amount,
        1 <= ratio,
    ensures
        ({
            let payment = price::payment_amount_of(sale_amount, ratio, PRICE_MULTIPLIER as int);
            let back = price::sale_amount_of(payment, ratio, PRICE_MULTIPLIER as int);
            &&& back == (sale_amount / (IDO_TOKEN_SCALE as int)) * (IDO_TOKEN_SCALE as int)
            &&& back <= sale_amount
            &&& sale_amount - back < IDO_TOKEN_SCALE
        }),
{
    let scale = IDO_TOKEN_SCALE as int;
    let multiplier = PRICE_MULTIPLIER as int;
    let units = sale_amount / scale;
    let payment = price::payment_amount_of(sale_amount, ratio, multiplier);
    lemma_div_pos_is_pos(sale_amount, scale);
    lemma_mul_nonnegative(units, ratio);
    // The ratio's fixed-point scale and the payment normalization scale
    // coincide, so scaling by the ratio and descaling cancel exactly.
    lemma_mul_is_associative(units, ratio, multiplier);
    lemma_div_by_multiple(units * ratio, multiplier);
    assert(payment == units * ratio);
    lemma_mul_is_associative(units, ratio, multiplier);
    assert(payment * multiplier == units * (ratio * multiplier));
    lemma_div_by_multiple(units, ratio * multiplier);
    assert((payment * multiplier) / (ratio * multiplier) == units);
    lemma_remainder(sale_amount, scale);
}

} // verus!
