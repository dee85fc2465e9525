//! The ledger of fungible assets that the treasury keeps its funds in.

use crate::error::DispatchResult;
use crate::primitives::{Balance, CurrencyId};
use vstd::prelude::*;

verus! {

/// What a ledger holds: the free balance of each account in each asset, and
/// how much of each asset exists. An entry that is absent counts as zero.
#[verifier::reject_recursive_types(AccountId)]
pub struct LedgerView<AccountId> {
    pub balances: Map<(CurrencyId, AccountId), nat>,
    pub issuance: Map<CurrencyId, nat>,
}

impl<AccountId> LedgerView<AccountId> {
    /// The ledger in which nothing was ever issued.
    pub open spec fn empty() -> Self {
        LedgerView { balances: Map::empty(), issuance: Map::empty() }
    }

    /// The free balance of `who` in `currency_id`.
    pub open spec fn balance(self, currency_id: CurrencyId, who: AccountId) -> nat {
        if self.balances.dom().contains((currency_id, who)) {
            self.balances[(currency_id, who)]
        } else {
            0
        }
    }

    /// How much of `currency_id` exists.
    pub open spec fn total_issuance(self, currency_id: CurrencyId) -> nat {
        if self.issuance.dom().contains(currency_id) {
            self.issuance[currency_id]
        } else {
            0
        }
    }

    /// The ledger after `amount` was created in the account of `who`.
    pub open spec fn deposit(self, currency_id: CurrencyId, who: AccountId, amount: nat) -> Self {
        LedgerView {
            balances: self.balances.insert(
                (currency_id, who),
                self.balance(currency_id, who) + amount,
            ),
            issuance: self.issuance.insert(currency_id, self.total_issuance(currency_id) + amount),
        }
    }

    /// The ledger after `amount` was taken from the account of `who` and
    /// destroyed.
    pub open spec fn withdraw(self, currency_id: CurrencyId, who: AccountId, amount: nat) -> Self {
        LedgerView {
            balances: self.balances.insert(
                (currency_id, who),
                (self.balance(currency_id, who) - amount) as nat,
            ),
            issuance: self.issuance.insert(
                currency_id,
                (self.total_issuance(currency_id) - amount) as nat,
            ),
        }
    }

    /// The ledger after `amount` moved from `from` to `to`.
    pub open spec fn transfer(
        self,
        currency_id: CurrencyId,
        from: AccountId,
        to: AccountId,
        amount: nat,
    ) -> Self {
        let debited = self.balances.insert(
            (currency_id, from),
            (self.balance(currency_id, from) - amount) as nat,
        );
        let credited = if debited.dom().contains((currency_id, to)) {
            debited[(currency_id, to)] + amount
        } else {
            amount
        };
        LedgerView {
            balances: debited.insert((currency_id, to), credited),
            issuance: self.issuance,
        }
    }
}

/// A ledger of fungible assets, as the treasury uses one. Whether a request
/// succeeds is the ledger's to decide, except where its contract says that it
/// fails; a request that fails changes nothing.
pub trait Ledger<AccountId> {
    /// What the ledger holds. A ledger that is not verified may leave this at
    /// the empty default; what this contract says of its balances is then
    /// not true of it, and nothing that rests on the contract was proved of
    /// that ledger.
    open spec fn view(&self) -> LedgerView<AccountId> {
        LedgerView::empty()
    }

    /// The free balance of `who` in `currency_id`.
    fn free_balance(&self, currency_id: CurrencyId, who: &AccountId) -> (r: Balance)
        ensures
            r == self@.balance(currency_id, *who),
    ;

    /// How much of `currency_id` exists.
    fn total_issuance(&self, currency_id: CurrencyId) -> (r: Balance)
        ensures
            r == self@.total_issuance(currency_id),
    ;

    /// Moves `amount` of `currency_id` from `from` to `to`.
    fn transfer(
        &mut self,
        currency_id: CurrencyId,
        from: &AccountId,
        to: &AccountId,
        amount: Balance,
    ) -> (r: DispatchResult)
        ensures
            old(self)@.balance(currency_id, *from) < amount ==> r == Err::<(), _>(
                crate::error::DispatchError::InsufficientBalance,
            ),
            r is Ok ==> final(self)@ == old(self)@.transfer(
                currency_id,
                *from,
                *to,
                amount as nat,
            ),
            r is Err ==> final(self)@ == old(self)@,
    ;

    /// Creates `amount` of `currency_id` in the account of `who`.
    fn deposit(&mut self, currency_id: CurrencyId, who: &AccountId, amount: Balance) -> (r:
        DispatchResult)
        ensures
            old(self)@.total_issuance(currency_id) + amount > u128::MAX ==> r == Err::<(), _>(
                crate::error::DispatchError::Arithmetic(crate::error::ArithmeticError::Overflow),
            ),
            r is Ok ==> final(self)@ == old(self)@.deposit(currency_id, *who, amount as nat),
            r is Err ==> final(self)@ == old(self)@,
    ;

    /// Takes `amount` of `currency_id` from the account of `who` and destroys
    /// it.
    fn withdraw(&mut self, currency_id: CurrencyId, who: &AccountId, amount: Balance) -> (r:
        DispatchResult)
        ensures
            old(self)@.balance(currency_id, *who) < amount ==> r == Err::<(), _>(
                crate::error::DispatchError::InsufficientBalance,
            ),
            r is Ok ==> old(self)@.total_issuance(currency_id) >= amount,
            r is Ok ==> final(self)@ == old(self)@.withdraw(currency_id, *who, amount as nat),
            r is Err ==> final(self)@ == old(self)@,
    ;
}

} // verus!
