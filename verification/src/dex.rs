//! The exchange on which the treasury swaps collateral for stable asset.

use crate::error::DispatchError;
use crate::ledger::{Ledger, LedgerView};
use crate::primitives::{Balance, CurrencyId};
use vstd::prelude::*;

verus! {

/// Whether `after` is `before` with `supply` of the first asset of `path` gone
/// from the account of `who` and `target` of the last arrived there, the
/// account's other balances and every issuance as they were.
pub open spec fn settled<AccountId>(
    before: LedgerView<AccountId>,
    after: LedgerView<AccountId>,
    who: AccountId,
    path: Seq<CurrencyId>,
    supply: nat,
    target: nat,
) -> bool {
    &&& forall|c: CurrencyId| #[trigger]
        after.balance(c, who) == before.balance(c, who) - (if c == path.first() {
            supply
        } else {
            0
        }) + (if c == path.last() {
            target
        } else {
            0
        })
    &&& forall|c: CurrencyId| #[trigger]
        after.total_issuance(c) == before.total_issuance(c)
}

/// A swap that an exchange carried out: what it was asked, and what came of
/// it.
pub enum Swap<AccountId> {
    /// Exactly `supply_amount` of the first asset of `path` was sold from the
    /// account of `who` for the last, of which at least `min_target_amount`
    /// was asked and `target` came.
    ExactSupply {
        who: AccountId,
        path: Seq<CurrencyId>,
        supply_amount: Balance,
        min_target_amount: Balance,
        target: Balance,
    },
    /// Exactly `target_amount` of the last asset of `path` was bought for the
    /// account of `who` with the first, of which at most `max_supply_amount`
    /// was offered and `supply` went.
    ExactTarget {
        who: AccountId,
        path: Seq<CurrencyId>,
        target_amount: Balance,
        max_supply_amount: Balance,
        supply: Balance,
    },
}

/// An exchange, as the treasury uses one. It trades on the ledger it is
/// handed. Whether a swap goes through, and at what price, is the exchange's
/// to decide; a swap that fails leaves the ledger as it was, and is not
/// among the swaps that the exchange carried out.
pub trait DEXManager<AccountId, L: Ledger<AccountId>> {
    /// The swaps that the exchange carried out, in the order they came. An
    /// exchange that is not verified may leave this at the empty default;
    /// what this contract says of its swaps is then not true of it, and
    /// nothing that rests on the contract was proved of that exchange.
    open spec fn swaps(&self) -> Seq<Swap<AccountId>> {
        Seq::empty()
    }

    /// Sells exactly `supply_amount` of the first asset of `path` from the
    /// account of `who` for the last asset of `path`, and returns how much of
    /// it the sale brought: at least `min_target_amount`.
    fn swap_with_exact_supply(
        &mut self,
        ledger: &mut L,
        who: &AccountId,
        path: &[CurrencyId],
        supply_amount: Balance,
        min_target_amount: Balance,
    ) -> (r: Result<Balance, DispatchError>)
        ensures
            match r {
                Ok(target) => {
                    &&& target >= min_target_amount
                    &&& settled(
                        old(ledger)@,
                        final(ledger)@,
                        *who,
                        path@,
                        supply_amount as nat,
                        target as nat,
                    )
                    &&& final(self).swaps() == old(self).swaps().push(
                        (Swap::ExactSupply {
                            who: *who,
                            path: path@,
                            supply_amount,
                            min_target_amount,
                            target,
                        }),
                    )
                },
                Err(_) => final(ledger)@ == old(ledger)@ && final(self).swaps()
                    == old(self).swaps(),
            },
    ;

    /// Buys exactly `target_amount` of the last asset of `path` for the
    /// account of `who` with the first asset of `path`, and returns how much
    /// of it the purchase cost: at most `max_supply_amount`.
    fn swap_with_exact_target(
        &mut self,
        ledger: &mut L,
        who: &AccountId,
        path: &[CurrencyId],
        target_amount: Balance,
        max_supply_amount: Balance,
    ) -> (r: Result<Balance, DispatchError>)
        ensures
            match r {
                Ok(supply) => {
                    &&& supply <= max_supply_amount
                    &&& settled(
                        old(ledger)@,
                        final(ledger)@,
                        *who,
                        path@,
                        supply as nat,
                        target_amount as nat,
                    )
                    &&& final(self).swaps() == old(self).swaps().push(
                        (Swap::ExactTarget {
                            who: *who,
                            path: path@,
                            target_amount,
                            max_supply_amount,
                            supply,
                        }),
                    )
                },
                Err(_) => final(ledger)@ == old(ledger)@ && final(self).swaps()
                    == old(self).swaps(),
            },
    ;
}

} // verus!
