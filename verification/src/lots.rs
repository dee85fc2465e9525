//! How a liquidation is divided into auction lots.

use crate::auction::{AuctionView, Lot};
use crate::error::{DispatchError, DispatchResult};
use crate::primitives::{Balance, CurrencyId};
use vstd::prelude::*;

verus! {

/// The number of lots that `amount` of collateral is divided into, for an
/// expected lot size of `lot_size` and at most `max_lots` lots: one lot where
/// splitting is off or not needed, else as many lots of the expected size as
/// it takes to hold the amount, capped at `max_lots`.
pub open spec fn spec_lots_count(amount: nat, lot_size: nat, max_lots: nat, split: bool) -> nat {
    if !split || max_lots == 0 || lot_size == 0 || amount <= lot_size {
        1
    } else {
        let needed = amount / lot_size + if amount % lot_size == 0 {
            0nat
        } else {
            1nat
        };
        if needed <= max_lots {
            needed
        } else {
            max_lots
        }
    }
}

/// The part of `total` that lot number `index` of `count` carries: every lot
/// but the last carries the quotient, and the last carries what is left.
pub open spec fn lot_share(total: nat, count: nat, index: int) -> nat {
    if index + 1 < count {
        total / count
    } else {
        (total - (count - 1) * (total / count)) as nat
    }
}

/// The lots that `amount` of collateral, meant to raise `target`, is divided
/// into when `count` lots are wanted. Nothing is auctioned where there is no
/// collateral.
pub open spec fn lot_plan<AccountId>(
    refund_recipient: AccountId,
    currency_id: CurrencyId,
    amount: Balance,
    target: Balance,
    count: nat,
) -> Seq<Lot<AccountId>> {
    if amount == 0 {
        Seq::empty()
    } else {
        Seq::new(
            count,
            |i: int|
                Lot {
                    refund_recipient,
                    currency_id,
                    amount: lot_share(amount as nat, count, i) as Balance,
                    target: lot_share(target as nat, count, i) as Balance,
                },
        )
    }
}

/// The collateral that `lots` hold together.
pub open spec fn total_amount<AccountId>(lots: Seq<Lot<AccountId>>) -> nat
    decreases lots.len(),
{
    if lots.len() == 0 {
        0
    } else {
        total_amount(lots.drop_last()) + lots.last().amount as nat
    }
}

/// The stable asset that `lots` are meant to raise together.
pub open spec fn total_target<AccountId>(lots: Seq<Lot<AccountId>>) -> nat
    decreases lots.len(),
{
    if lots.len() == 0 {
        0
    } else {
        total_target(lots.drop_last()) + lots.last().target as nat
    }
}

/// The number of lots is at least one; with more than one lot, every lot
/// holds some collateral, since there are no more lots than units of it.
pub proof fn lemma_lots_count_bounds(amount: nat, lot_size: nat, max_lots: nat, split: bool)
    ensures
        1 <= spec_lots_count(amount, lot_size, max_lots, split),
        spec_lots_count(amount, lot_size, max_lots, split) > 1 ==> spec_lots_count(
            amount,
            lot_size,
            max_lots,
            split,
        ) <= amount,
        max_lots >= 1 ==> spec_lots_count(amount, lot_size, max_lots, split) <= max_lots,
{
    if split && max_lots != 0 && lot_size != 0 && amount > lot_size {
        let q = amount / lot_size;
        let r = amount % lot_size;
        assert(amount == lot_size * q + r && 0 <= r < lot_size) by (nonlinear_arith)
            requires
                lot_size > 0,
                q == amount / lot_size,
                r == amount % lot_size,
        ;
        assert(q >= 1) by (nonlinear_arith)
            requires
                amount == lot_size * q + r,
                r < lot_size,
                amount > lot_size,
                q >= 0,
        ;
        assert(r != 0 ==> q + 1 <= amount) by (nonlinear_arith)
            requires
                amount == lot_size * q + r,
                0 <= r < lot_size,
                q >= 1,
        ;
        assert(q <= amount) by (nonlinear_arith)
            requires
                amount == lot_size * q + r,
                0 <= r,
                lot_size >= 1,
                q >= 0,
        ;
    }
}

/// What the lots before the last hold together is within the whole: `count -
/// 1` quotients of `total` by `count` never exceed `total`.
pub proof fn lemma_share_fits(total: nat, count: nat)
    requires
        count >= 1,
    ensures
        (count - 1) * (total / count) <= total,
        count * (total / count) <= total,
        forall|i: int| 0 <= i < count ==> #[trigger] lot_share(total, count, i) <= total,
{
    let q = total / count;
    assert(count * q <= total && q <= total) by (nonlinear_arith)
        requires
            count >= 1,
            q == total / count,
    ;
    assert((count - 1) * q <= count * q) by (nonlinear_arith)
        requires
            count >= 1,
            q >= 0,
    ;
}

proof fn lemma_prefix_totals<AccountId>(lots: Seq<Lot<AccountId>>, k: nat, amount: nat, target: nat)
    requires
        k <= lots.len(),
        forall|i: int| 0 <= i < k ==> (#[trigger] lots[i]).amount == amount,
        forall|i: int| 0 <= i < k ==> (#[trigger] lots[i]).target == target,
    ensures
        total_amount(lots.take(k as int)) == k * amount,
        total_target(lots.take(k as int)) == k * target,
    decreases k,
{
    let prefix = lots.take(k as int);
    if k == 0 {
        assert(0 * amount == 0 && 0 * target == 0) by (nonlinear_arith);
    } else {
        lemma_prefix_totals(lots, (k - 1) as nat, amount, target);
        assert(prefix.drop_last() =~= lots.take(k - 1));
        assert(prefix.last() == lots[k - 1]);
        assert((k - 1) * amount + amount == k * amount && (k - 1) * target + target == k
            * target) by (nonlinear_arith);
    }
}

/// Splitting creates and destroys nothing: the lots of a plan hold `amount`
/// together, and where there is collateral at all they are meant to raise
/// `target` together.
pub proof fn lemma_lot_plan_conserves<AccountId>(
    refund_recipient: AccountId,
    currency_id: CurrencyId,
    amount: Balance,
    target: Balance,
    count: nat,
)
    requires
        count >= 1,
    ensures
        total_amount(lot_plan(refund_recipient, currency_id, amount, target, count)) == amount,
        amount > 0 ==> total_target(lot_plan(refund_recipient, currency_id, amount, target, count))
            == target,
{
    let plan = lot_plan(refund_recipient, currency_id, amount, target, count);
    if amount > 0 {
        lemma_share_fits(amount as nat, count);
        lemma_share_fits(target as nat, count);
        let a: nat = amount as nat / count;
        let t: nat = target as nat / count;
        let k = (count - 1) as nat;
        assert forall|i: int| 0 <= i < k implies (#[trigger] plan[i]).amount == a && plan[i].target
            == t by {
            assert(lot_share(amount as nat, count, i) == a);
            assert(lot_share(target as nat, count, i) == t);
        }
        lemma_prefix_totals(plan, k, a, t);
        assert(plan.drop_last() =~= plan.take(k as int));
        assert(plan.last().amount == lot_share(amount as nat, count, count - 1));
        assert(plan.last().target == lot_share(target as nat, count, count - 1));
    }
}

/// A plan has as many lots as were wanted, and none where there is no
/// collateral; each of its lots is of the kind of collateral asked for.
pub proof fn lemma_lot_plan_shape<AccountId>(
    refund_recipient: AccountId,
    currency_id: CurrencyId,
    amount: Balance,
    target: Balance,
    count: nat,
)
    ensures
        lot_plan(refund_recipient, currency_id, amount, target, count).len() == if amount == 0 {
            0
        } else {
            count
        },
        forall|i: int|
            0 <= i < lot_plan(refund_recipient, currency_id, amount, target, count).len() ==> (
            #[trigger] lot_plan(
                refund_recipient,
                currency_id,
                amount,
                target,
                count,
            )[i]).currency_id == currency_id,
{
}

/// Handing lots of one kind of collateral to an auction manager adds them to
/// the lots it has, in their order, and locks what they hold of that kind;
/// what is locked of other kinds stays as it is.
pub proof fn lemma_open_lots<AccountId>(
    view: AuctionView<AccountId>,
    lots: Seq<Lot<AccountId>>,
    currency_id: CurrencyId,
)
    requires
        forall|i: int| 0 <= i < lots.len() ==> (#[trigger] lots[i]).currency_id == currency_id,
    ensures
        view.open_lots(lots).lots == view.lots + lots,
        view.open_lots(lots).total_collateral_in_auction(currency_id)
            == view.total_collateral_in_auction(currency_id) + total_amount(lots),
        forall|c: CurrencyId|
            c != currency_id ==> #[trigger] view.open_lots(lots).total_collateral_in_auction(c)
                == view.total_collateral_in_auction(c),
    decreases lots.len(),
{
    if lots.len() > 0 {
        let front = lots.drop_last();
        assert forall|i: int| 0 <= i < front.len() implies (#[trigger] front[i]).currency_id
            == currency_id by {
            assert(lots[i].currency_id == currency_id);
        }
        lemma_open_lots(view, front, currency_id);
        assert(lots[lots.len() - 1].currency_id == currency_id);
        assert(view.lots + lots =~= (view.lots + front).push(lots.last()));
        assert forall|c: CurrencyId| c != currency_id implies #[trigger] view.open_lots(
            lots,
        ).total_collateral_in_auction(c) == view.total_collateral_in_auction(c) by {
            assert(view.open_lots(front).total_collateral_in_auction(c)
                == view.total_collateral_in_auction(c));
        }
    } else {
        assert(view.lots + lots =~= view.lots);
    }
}

/// The number of lots that a liquidation of `amount` is divided into.
#[verifier::when_used_as_spec(lots_count_as_spec)]
pub fn lots_count(
    amount: Balance,
    expected_size: Balance,
    max_auctions_count: u32,
    splited: bool,
) -> (count: Balance)
    ensures
        count == spec_lots_count(
            amount as nat,
            expected_size as nat,
            max_auctions_count as nat,
            splited,
        ),
        count >= 1,
{
    proof {
        lemma_lots_count_bounds(
            amount as nat,
            expected_size as nat,
            max_auctions_count as nat,
            splited,
        );
    }
    let max_lots: Balance = max_auctions_count as Balance;
    if !splited || max_lots == 0 || expected_size == 0 || amount <= expected_size {
        1
    } else {
        let mut count: Balance = amount / expected_size;
        let remainder: Balance = amount % expected_size;
        if remainder != 0 {
            assert(count < u128::MAX) by (nonlinear_arith)
                requires
                    count == amount / expected_size,
                    amount % expected_size != 0,
                    expected_size > 0,
            ;
            count = count.saturating_add(1);
        }
        if count <= max_lots {
            count
        } else {
            max_lots
        }
    }
}

/// What follows from the auction manager's answer to a lot: where it took the
/// lot, the collateral and the target that are still to be handled, which is
/// what was unhandled less what the lot holds, and never below zero; where it
/// refused, its error, handed on as it came.
pub fn after_lot(
    answer: DispatchResult,
    unhandled_amount: Balance,
    unhandled_target: Balance,
    lot_amount: Balance,
    lot_target: Balance,
) -> (r: Result<(Balance, Balance), DispatchError>)
    ensures
        answer is Ok ==> r == Ok::<(Balance, Balance), DispatchError>(
            (
                if unhandled_amount >= lot_amount {
                    (unhandled_amount - lot_amount) as Balance
                } else {
                    0u128
                },
                if unhandled_target >= lot_target {
                    (unhandled_target - lot_target) as Balance
                } else {
                    0u128
                },
            ),
        ),
        answer matches Err(e) ==> r == Err::<(Balance, Balance), DispatchError>(e),
{
    match answer {
        Ok(()) => Ok(
            (unhandled_amount.saturating_sub(lot_amount), unhandled_target.saturating_sub(lot_target)),
        ),
        Err(e) => Err(e),
    }
}

/// What `lots_count` computes.
pub open spec fn lots_count_as_spec(
    amount: Balance,
    expected_size: Balance,
    max_auctions_count: u32,
    splited: bool,
) -> Balance {
    spec_lots_count(amount as nat, expected_size as nat, max_auctions_count as nat, splited) as Balance
}

} // verus!
