//! Collaborators that keep their books in memory: a ledger, an auction
//! manager and an exchange, with accounts numbered by `u64`.

use crate::amounts::Amounts;
use crate::auction::{AuctionManager, AuctionView, Lot};
use crate::dex::{settled, DEXManager, Swap};
use crate::error::{ArithmeticError, DispatchError, DispatchResult};
use crate::ledger::{Ledger, LedgerView};
use crate::primitives::{Balance, CurrencyId};
use crate::treasury::Config;
use vstd::prelude::*;

verus! {

/// Amounts as natural numbers.
pub open spec fn as_nat<K>(amounts: Map<K, Balance>) -> Map<K, nat> {
    amounts.map_values(|amount: Balance| amount as nat)
}

/// A ledger that keeps its balances in memory. It refuses a request only
/// where an amount would leave the range of a balance.
pub struct MemoryLedger {
    balances: Amounts<(CurrencyId, u64)>,
    issuance: Amounts<CurrencyId>,
}

impl MemoryLedger {
    /// The ledger in which nothing was ever issued.
    pub fn new() -> (ledger: MemoryLedger)
        ensures
            ledger@ == LedgerView::<u64>::empty(),
    {
        let ledger = MemoryLedger { balances: Amounts::new(), issuance: Amounts::new() };
        assert(ledger@.balances =~= Map::empty());
        assert(ledger@.issuance =~= Map::empty());
        ledger
    }
}

impl Ledger<u64> for MemoryLedger {
    closed spec fn view(&self) -> LedgerView<u64> {
        LedgerView { balances: as_nat(self.balances@), issuance: as_nat(self.issuance@) }
    }

    fn free_balance(&self, currency_id: CurrencyId, who: &u64) -> (r: Balance) {
        self.balances.get((currency_id, *who))
    }

    fn total_issuance(&self, currency_id: CurrencyId) -> (r: Balance) {
        self.issuance.get(currency_id)
    }

    /// Succeeds where `from` holds `amount` and `to` can hold it too.
    fn transfer(&mut self, currency_id: CurrencyId, from: &u64, to: &u64, amount: Balance) -> (r:
        DispatchResult)
        ensures
            r is Ok <==> {
                &&& old(self)@.balance(currency_id, *from) >= amount
                &&& *from != *to ==> old(self)@.balance(currency_id, *to) + amount <= u128::MAX
            },
            r is Err && old(self)@.balance(currency_id, *from) >= amount ==> r == Err::<(), _>(
                DispatchError::Arithmetic(ArithmeticError::Overflow),
            ),
    {
        let from_balance = self.balances.get((currency_id, *from));
        if from_balance < amount {
            return Err(DispatchError::InsufficientBalance);
        }
        let to_balance = if *from == *to {
            from_balance - amount
        } else {
            self.balances.get((currency_id, *to))
        };
        let credited = match to_balance.checked_add(amount) {
            Some(credited) => credited,
            None => {
                return Err(DispatchError::Arithmetic(ArithmeticError::Overflow));
            },
        };
        self.balances.set((currency_id, *from), from_balance - amount);
        self.balances.set((currency_id, *to), credited);
        assert(self@.balances =~= old(self)@.transfer(
            currency_id,
            *from,
            *to,
            amount as nat,
        ).balances);
        Ok(())
    }

    /// Succeeds where neither the issuance nor the account leaves the range
    /// of a balance.
    fn deposit(&mut self, currency_id: CurrencyId, who: &u64, amount: Balance) -> (r: DispatchResult)
        ensures
            r is Ok <==> {
                &&& old(self)@.total_issuance(currency_id) + amount <= u128::MAX
                &&& old(self)@.balance(currency_id, *who) + amount <= u128::MAX
            },
            r is Err ==> r == Err::<(), _>(DispatchError::Arithmetic(ArithmeticError::Overflow)),
    {
        let issued = match self.issuance.get(currency_id).checked_add(amount) {
            Some(issued) => issued,
            None => {
                return Err(DispatchError::Arithmetic(ArithmeticError::Overflow));
            },
        };
        let balance = match self.balances.get((currency_id, *who)).checked_add(amount) {
            Some(balance) => balance,
            None => {
                return Err(DispatchError::Arithmetic(ArithmeticError::Overflow));
            },
        };
        self.issuance.set(currency_id, issued);
        assert(as_nat(self.issuance@) =~= as_nat(old(self).issuance@).insert(
            currency_id,
            issued as nat,
        ));
        self.balances.set((currency_id, *who), balance);
        assert(as_nat(self.balances@) =~= as_nat(old(self).balances@).insert(
            (currency_id, *who),
            balance as nat,
        ));
        Ok(())
    }

    /// Succeeds where the account holds `amount` and that much was issued.
    fn withdraw(&mut self, currency_id: CurrencyId, who: &u64, amount: Balance) -> (r: DispatchResult)
        ensures
            r is Ok <==> {
                &&& old(self)@.balance(currency_id, *who) >= amount
                &&& old(self)@.total_issuance(currency_id) >= amount
            },
            r is Err && old(self)@.balance(currency_id, *who) >= amount ==> r == Err::<(), _>(
                DispatchError::Arithmetic(ArithmeticError::Underflow),
            ),
    {
        let balance = self.balances.get((currency_id, *who));
        if balance < amount {
            return Err(DispatchError::InsufficientBalance);
        }
        let issued = self.issuance.get(currency_id);
        if issued < amount {
            return Err(DispatchError::Arithmetic(ArithmeticError::Underflow));
        }
        self.issuance.set(currency_id, issued - amount);
        assert(as_nat(self.issuance@) =~= as_nat(old(self).issuance@).insert(
            currency_id,
            (issued - amount) as nat,
        ));
        self.balances.set((currency_id, *who), balance - amount);
        assert(as_nat(self.balances@) =~= as_nat(old(self).balances@).insert(
            (currency_id, *who),
            (balance - amount) as nat,
        ));
        Ok(())
    }
}

/// An auction manager that keeps the lots it was handed in memory. It refuses
/// a lot only where the collateral locked would leave the range of a balance.
pub struct AuctionBook {
    lots: Vec<Lot<u64>>,
    in_auction: Amounts<CurrencyId>,
}

impl AuctionBook {
    /// The manager that never saw a lot.
    pub fn new() -> (book: AuctionBook)
        ensures
            book@ == AuctionView::<u64>::empty(),
    {
        let book = AuctionBook { lots: Vec::new(), in_auction: Amounts::new() };
        assert(book@.in_auction =~= Map::empty());
        book
    }

    /// The lots that the manager was handed, in the order they came.
    pub fn lots(&self) -> (r: &Vec<Lot<u64>>)
        ensures
            r@ == self@.lots,
    {
        &self.lots
    }
}

impl AuctionManager<u64> for AuctionBook {
    closed spec fn view(&self) -> AuctionView<u64> {
        AuctionView { lots: self.lots@, in_auction: as_nat(self.in_auction@) }
    }

    fn get_total_collateral_in_auction(&self, currency_id: CurrencyId) -> (r: Balance) {
        self.in_auction.get(currency_id)
    }

    /// Succeeds where the collateral locked stays in the range of a balance.
    fn new_collateral_auction(
        &mut self,
        refund_recipient: &u64,
        currency_id: CurrencyId,
        amount: Balance,
        target: Balance,
    ) -> (r: DispatchResult)
        ensures
            r is Ok <==> old(self)@.total_collateral_in_auction(currency_id) + amount <= u128::MAX,
            r is Err ==> r == Err::<(), _>(DispatchError::Arithmetic(ArithmeticError::Overflow)),
    {
        let locked = match self.in_auction.get(currency_id).checked_add(amount) {
            Some(locked) => locked,
            None => {
                return Err(DispatchError::Arithmetic(ArithmeticError::Overflow));
            },
        };
        self.in_auction.set(currency_id, locked);
        assert(as_nat(self.in_auction@) =~= as_nat(old(self).in_auction@).insert(
            currency_id,
            locked as nat,
        ));
        self.lots.push(Lot { refund_recipient: *refund_recipient, currency_id, amount, target });
        Ok(())
    }

    fn snapshot(&self) -> (copy: Self) {
        let mut lots: Vec<Lot<u64>> = Vec::new();
        let mut i: usize = 0;
        while i < self.lots.len()
            invariant
                i <= self.lots.len(),
                lots@ == self.lots@.take(i as int),
            decreases self.lots.len() - i,
        {
            let lot = &self.lots[i];
            lots.push(
                Lot {
                    refund_recipient: lot.refund_recipient,
                    currency_id: lot.currency_id,
                    amount: lot.amount,
                    target: lot.target,
                },
            );
            assert(lots@ =~= self.lots@.take(i + 1));
            i = i + 1;
        }
        assert(self.lots@.take(i as int) =~= self.lots@);
        let in_auction = self.in_auction.duplicate();
        AuctionBook { lots, in_auction }
    }
}

/// Whether a pool can trade `amount` of the first asset of `path` from the
/// account of `who` for as much of the last: the path has two ends, the
/// account is not the pool's own, it holds the amount, the pool holds as much
/// of the last asset, and each can hold what it receives.
pub open spec fn tradable(
    ledger: LedgerView<u64>,
    pool: u64,
    who: u64,
    path: Seq<CurrencyId>,
    amount: Balance,
) -> bool {
    &&& path.len() >= 2
    &&& who != pool
    &&& ledger.balance(path.first(), who) >= amount
    &&& ledger.balance(path.first(), pool) + amount <= u128::MAX
    &&& path.first() != path.last() ==> {
        &&& ledger.balance(path.last(), pool) >= amount
        &&& ledger.balance(path.last(), who) + amount <= u128::MAX
    }
}

/// Trades `amount` of the first asset of `path` from the account of `who`
/// for as much of the last out of the account of `pool`, where that can be
/// done, and says whether it was.
fn trade(ledger: &mut MemoryLedger, pool: u64, who: u64, path: &[CurrencyId], amount: Balance) -> (done:
    bool)
    ensures
        done == tradable(old(ledger)@, pool, who, path@, amount),
        done ==> settled(old(ledger)@, final(ledger)@, who, path@, amount as nat, amount as nat),
        !done ==> final(ledger)@ == old(ledger)@,
{
    if path.len() < 2 || who == pool {
        return false;
    }
    let first = path[0];
    let last = path[path.len() - 1];
    if ledger.free_balance(first, &who) < amount {
        return false;
    }
    if ledger.free_balance(first, &pool).checked_add(amount).is_none() {
        return false;
    }
    if first != last {
        if ledger.free_balance(last, &pool) < amount {
            return false;
        }
        if ledger.free_balance(last, &who).checked_add(amount).is_none() {
            return false;
        }
    }
    let ghost before = ledger@;
    let paid = ledger.transfer(first, &who, &pool, amount);
    assert(paid is Ok);
    let ghost between = ledger@;
    let received = ledger.transfer(last, &pool, &who, amount);
    assert(received is Ok);
    proof {
        let after = ledger@;
        assert forall|c: CurrencyId| #[trigger]
            after.balance(c, who) == before.balance(c, who) - (if c == path@.first() {
                amount as nat
            } else {
                0
            }) + (if c == path@.last() {
                amount as nat
            } else {
                0
            }) by {
            assert(between.balance(c, who) == before.balance(c, who) - (if c == first {
                amount as nat
            } else {
                0
            }));
        }
        assert forall|c: CurrencyId| #[trigger]
            after.total_issuance(c) == before.total_issuance(c) by {
            assert(between.total_issuance(c) == before.total_issuance(c));
        }
    }
    true
}

/// An exchange that trades any asset for any other, one for one, out of the
/// account of a pool. It refuses a swap where the bound on the price is not
/// met at one for one, and where the trade cannot be done.
pub struct PoolExchange {
    pool: u64,
    swaps: Ghost<Seq<Swap<u64>>>,
}

impl PoolExchange {
    /// The account that the exchange trades out of.
    pub closed spec fn pool(&self) -> u64 {
        self.pool
    }

    /// The exchange that trades out of the account of `pool` and has carried
    /// out no swap.
    pub fn new(pool: u64) -> (exchange: PoolExchange)
        ensures
            exchange.pool() == pool,
            exchange.swaps() == Seq::<Swap<u64>>::empty(),
    {
        PoolExchange { pool, swaps: Ghost(Seq::empty()) }
    }
}

impl DEXManager<u64, MemoryLedger> for PoolExchange {
    closed spec fn swaps(&self) -> Seq<Swap<u64>> {
        self.swaps@
    }

    /// Succeeds, and brings as much as was sold, where no more than that is
    /// asked as the least and the trade can be done.
    fn swap_with_exact_supply(
        &mut self,
        ledger: &mut MemoryLedger,
        who: &u64,
        path: &[CurrencyId],
        supply_amount: Balance,
        min_target_amount: Balance,
    ) -> (r: Result<Balance, DispatchError>)
        ensures
            final(self).pool() == old(self).pool(),
            r is Ok <==> min_target_amount <= supply_amount && tradable(
                old(ledger)@,
                old(self).pool(),
                *who,
                path@,
                supply_amount,
            ),
            r is Ok ==> r == Ok::<Balance, DispatchError>(supply_amount),
    {
        if supply_amount < min_target_amount {
            return Err(DispatchError::Other(1));
        }
        if !trade(ledger, self.pool, *who, path, supply_amount) {
            return Err(DispatchError::Other(2));
        }
        self.swaps = Ghost(
            self.swaps@.push(
                Swap::ExactSupply {
                    who: *who,
                    path: path@,
                    supply_amount,
                    min_target_amount,
                    target: supply_amount,
                },
            ),
        );
        Ok(supply_amount)
    }

    /// Succeeds, and costs as much as was bought, where no less than that is
    /// offered as the most and the trade can be done.
    fn swap_with_exact_target(
        &mut self,
        ledger: &mut MemoryLedger,
        who: &u64,
        path: &[CurrencyId],
        target_amount: Balance,
        max_supply_amount: Balance,
    ) -> (r: Result<Balance, DispatchError>)
        ensures
            final(self).pool() == old(self).pool(),
            r is Ok <==> target_amount <= max_supply_amount && tradable(
                old(ledger)@,
                old(self).pool(),
                *who,
                path@,
                target_amount,
            ),
            r is Ok ==> r == Ok::<Balance, DispatchError>(target_amount),
    {
        if max_supply_amount < target_amount {
            return Err(DispatchError::Other(1));
        }
        if !trade(ledger, self.pool, *who, path, target_amount) {
            return Err(DispatchError::Other(2));
        }
        self.swaps = Ghost(
            self.swaps@.push(
                Swap::ExactTarget {
                    who: *who,
                    path: path@,
                    target_amount,
                    max_supply_amount,
                    supply: target_amount,
                },
            ),
        );
        Ok(target_amount)
    }
}

/// The collaborators that keep their books in memory.
pub struct InMemory;

impl Config for InMemory {
    type AccountId = u64;

    type Currency = MemoryLedger;

    type AuctionManagerHandler = AuctionBook;

    type DEX = PoolExchange;
}

} // verus!
