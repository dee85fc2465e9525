//! The treasury: its state, and the operations that change it.

use crate::amounts::Amounts;
use crate::assoc::assoc_map;
use crate::auction::{AuctionManager, AuctionView, Lot};
use crate::debit::{debit_after, issue_outcome, offset_amount, offset_outcome, DebitChange};
use crate::dex::{settled, DEXManager, Swap};
use crate::error::{ArithmeticError, DispatchError, DispatchResult, Error};
use crate::ledger::{Ledger, LedgerView};
use crate::lots::{
    after_lot, lemma_lot_plan_conserves, lemma_lot_plan_shape, lemma_lots_count_bounds,
    lemma_open_lots, lemma_share_fits, lot_plan, lot_share, lots_count, spec_lots_count,
    total_amount, total_target,
};
use crate::parameters::{size_in, Parameters};
use crate::primitives::{Balance, CurrencyId};
use crate::ratio::{rational_parts, Ratio};
use vstd::prelude::*;

verus! {

/// The collaborators that a treasury works with.
pub trait Config {
    /// Identifies an account of the ledger.
    type AccountId;

    /// The ledger that holds the assets.
    type Currency: Ledger<Self::AccountId>;

    /// The auction manager that sells collateral.
    type AuctionManagerHandler: AuctionManager<Self::AccountId>;

    /// The exchange on which collateral is swapped for stable asset.
    type DEX: DEXManager<Self::AccountId, Self::Currency>;
}

/// Whether `swap_path` leads from `currency_id` to the stable asset: it has at
/// least two assets, starts at the one and ends at the other.
pub open spec fn valid_swap_path(
    swap_path: Seq<CurrencyId>,
    currency_id: CurrencyId,
    stable_currency_id: CurrencyId,
) -> bool {
    &&& swap_path.len() >= 2
    &&& swap_path.first() == currency_id
    &&& swap_path.last() == stable_currency_id
}

/// The expected lot sizes that a treasury starts with.
pub struct GenesisConfig {
    /// A kind of collateral and the expected size of a lot of it; a later
    /// entry for a kind replaces an earlier one.
    pub expected_collateral_auction_size: Vec<(CurrencyId, Balance)>,
}

/// What the treasury gives notice of.
#[derive(Clone, Copy, Debug, PartialEq, Eq, Structural)]
pub enum Event {
    /// The expected size of a lot of a kind of collateral was set: the kind,
    /// and the new size.
    ExpectedCollateralAuctionSizeUpdated(CurrencyId, Balance),
}

/// The treasury: the collaborators it works with, its parameters, the debit
/// pool, and the expected lot sizes.
pub struct Pallet<T: Config> {
    currency: T::Currency,
    auction_manager: T::AuctionManagerHandler,
    dex: T::DEX,
    parameters: Parameters<T::AccountId>,
    debit_pool: Balance,
    lot_sizes: Amounts<CurrencyId>,
}

/// What a treasury holds: what its ledger and its auction manager hold, its
/// parameters, the debit pool, and the expected lot sizes that were set.
#[verifier::reject_recursive_types(AccountId)]
pub struct TreasuryView<AccountId> {
    pub ledger: LedgerView<AccountId>,
    pub auctions: AuctionView<AccountId>,
    pub parameters: Parameters<AccountId>,
    pub debit_pool: Balance,
    pub lot_sizes: Map<CurrencyId, Balance>,
}

impl<AccountId> TreasuryView<AccountId> {
    /// The surplus of the system: the stable asset in the treasury's account.
    pub open spec fn surplus_pool(self) -> nat {
        self.ledger.balance(self.parameters.stable_currency_id, self.parameters.account_id)
    }

    /// The collateral of a kind that the treasury holds.
    pub open spec fn total_collaterals(self, currency_id: CurrencyId) -> nat {
        self.ledger.balance(currency_id, self.parameters.account_id)
    }

    /// The collateral of a kind that is locked in auctions.
    pub open spec fn collateral_in_auction(self, currency_id: CurrencyId) -> nat {
        self.auctions.total_collateral_in_auction(currency_id)
    }

    /// The collateral of a kind that the treasury holds and that is not
    /// locked in an auction: zero where more is reported as locked than is
    /// held.
    pub open spec fn total_collaterals_not_in_auction(self, currency_id: CurrencyId) -> nat {
        let held = self.total_collaterals(currency_id);
        let locked = self.collateral_in_auction(currency_id);
        if held >= locked {
            (held - locked) as nat
        } else {
            0
        }
    }

    /// The lots that a liquidation of `amount` of `currency_id`, meant to
    /// raise `target`, is divided into.
    pub open spec fn lots_for(
        self,
        refund_receiver: AccountId,
        currency_id: CurrencyId,
        amount: Balance,
        target: Balance,
        splited: bool,
    ) -> Seq<Lot<AccountId>> {
        lot_plan(
            refund_receiver,
            currency_id,
            amount,
            target,
            self.lots_count(currency_id, amount, splited),
        )
    }

    /// Whether `after` is `self` with a liquidation of `amount` of
    /// `currency_id` put up for auction: the lots it is divided into are
    /// added to the lots of the auction manager and hold `amount` and
    /// `target` together, the collateral they hold is locked, and nothing
    /// else has changed. There is at least one lot where there is collateral,
    /// and there are no more than the parameters allow where they allow any.
    pub open spec fn auctioned(
        self,
        after: Self,
        refund_receiver: AccountId,
        currency_id: CurrencyId,
        amount: Balance,
        target: Balance,
        splited: bool,
    ) -> bool {
        let lots = self.lots_for(refund_receiver, currency_id, amount, target, splited);
        &&& after == (TreasuryView { auctions: self.auctions.open_lots(lots), ..self })
        &&& after.auctions.lots == self.auctions.lots + lots
        &&& total_amount(lots) == amount
        &&& amount > 0 ==> total_target(lots) == target
        &&& amount > 0 ==> lots.len() >= 1
        &&& self.parameters.max_auctions_count >= 1 ==> lots.len()
            <= self.parameters.max_auctions_count
        &&& after.collateral_in_auction(currency_id) == self.collateral_in_auction(currency_id)
            + amount
    }

    /// Putting a liquidation up for auction creates and destroys nothing, and
    /// keeps to the bounds on the number of lots: the treasury with the lots
    /// of the liquidation handed to its auction manager is the treasury with
    /// the liquidation auctioned.
    pub proof fn lemma_auctioned(
        self,
        refund_receiver: AccountId,
        currency_id: CurrencyId,
        amount: Balance,
        target: Balance,
        splited: bool,
    )
        ensures
            self.auctioned(
                (TreasuryView {
                    auctions: self.auctions.open_lots(
                        self.lots_for(refund_receiver, currency_id, amount, target, splited),
                    ),
                    ..self
                }),
                refund_receiver,
                currency_id,
                amount,
                target,
                splited,
            ),
    {
        let count = self.lots_count(currency_id, amount, splited);
        lemma_lots_count_bounds(
            amount as nat,
            size_in(self.lot_sizes, currency_id) as nat,
            self.parameters.max_auctions_count as nat,
            splited,
        );
        lemma_lot_plan_conserves(refund_receiver, currency_id, amount, target, count);
        lemma_lot_plan_shape(refund_receiver, currency_id, amount, target, count);
        lemma_open_lots(
            self.auctions,
            self.lots_for(refund_receiver, currency_id, amount, target, splited),
            currency_id,
        );
    }

    /// Whether the treasury has `needed` of `currency_id` to dispose of: out
    /// of what is locked in auctions, which it must both hold and have locked,
    /// or out of what is free.
    pub open spec fn collateral_available(
        self,
        currency_id: CurrencyId,
        needed: Balance,
        collateral_in_auction: bool,
    ) -> bool {
        if collateral_in_auction {
            self.total_collaterals(currency_id) >= needed && self.collateral_in_auction(currency_id)
                >= needed
        } else {
            self.total_collaterals_not_in_auction(currency_id) >= needed
        }
    }

    /// The error with which a swap of `needed` of `currency_id` along
    /// `swap_path` is turned down before the exchange is asked: the treasury
    /// has not that much to dispose of, or else the path does not lead from
    /// `currency_id` to the stable asset.
    pub open spec fn swap_refusal(
        self,
        currency_id: CurrencyId,
        needed: Balance,
        swap_path: Seq<CurrencyId>,
        collateral_in_auction: bool,
    ) -> Option<Error> {
        if !self.collateral_available(currency_id, needed, collateral_in_auction) {
            Some(Error::CollateralNotEnough)
        } else if !valid_swap_path(swap_path, currency_id, self.parameters.stable_currency_id) {
            Some(Error::InvalidSwapPath)
        } else {
            None
        }
    }

    /// The amount that the next netting of debt against surplus takes from
    /// both.
    pub open spec fn offset_amount(self) -> nat {
        offset_amount(self.debit_pool as int, self.surplus_pool() as int) as nat
    }

    /// How much of the stable asset exists.
    pub open spec fn stable_issuance(self) -> nat {
        self.ledger.total_issuance(self.parameters.stable_currency_id)
    }

    /// The treasury after `amount` of debt was netted against surplus: that
    /// much stable asset is destroyed in the treasury's account and taken off
    /// the debit pool.
    pub open spec fn netted(self, amount: nat) -> Self {
        TreasuryView {
            ledger: self.ledger.withdraw(
                self.parameters.stable_currency_id,
                self.parameters.account_id,
                amount,
            ),
            debit_pool: (self.debit_pool - amount) as Balance,
            ..self
        }
    }

    /// The number of lots that a liquidation of `amount` of `currency_id` is
    /// divided into.
    pub open spec fn lots_count(self, currency_id: CurrencyId, amount: Balance, splited: bool) -> nat {
        spec_lots_count(
            amount as nat,
            size_in(self.lot_sizes, currency_id) as nat,
            self.parameters.max_auctions_count as nat,
            splited,
        )
    }
}

/// What the lots handed out so far and the next one hold together is within
/// the whole.
proof fn lemma_handled_fits(total: nat, count: nat, done: nat)
    requires
        count >= 1,
        done < count,
    ensures
        (done + 1) * (total / count) <= total,
        done * (total / count) + total / count == (done + 1) * (total / count),
{
    let q = total / count;
    lemma_share_fits(total, count);
    assert((done + 1) * q <= count * q && done * q + q == (done + 1) * q) by (nonlinear_arith)
        requires
            done < count,
            q >= 0,
    ;
}

/// While lots are still to come, some collateral is still unhandled: the lots
/// before the last never use up the whole.
proof fn lemma_unhandled_positive(total: nat, count: nat, done: nat)
    requires
        total > 0,
        count >= 1,
        count > 1 ==> count <= total,
        done < count,
    ensures
        done * (total / count) < total,
{
    lemma_handled_fits(total, count, done);
    if count > 1 {
        assert(total / count >= 1) by (nonlinear_arith)
            requires
                1 <= count <= total,
        ;
    }
}

impl<T: Config> Pallet<T> {
    /// What the treasury holds.
    pub closed spec fn view(&self) -> TreasuryView<T::AccountId> {
        TreasuryView {
            ledger: self.currency@,
            auctions: self.auction_manager@,
            parameters: self.parameters,
            debit_pool: self.debit_pool,
            lot_sizes: self.lot_sizes@,
        }
    }

    /// The exchange that the treasury swaps on.
    pub closed spec fn exchange(&self) -> T::DEX {
        self.dex
    }

    /// A treasury with an empty debit pool and no expected lot size set.
    pub fn new(
        currency: T::Currency,
        auction_manager: T::AuctionManagerHandler,
        dex: T::DEX,
        parameters: Parameters<T::AccountId>,
    ) -> (pallet: Self)
        ensures
            pallet@ == (TreasuryView {
                ledger: currency@,
                auctions: auction_manager@,
                parameters,
                debit_pool: 0,
                lot_sizes: Map::empty(),
            }),
            pallet.exchange() == dex,
    {
        Pallet {
            currency,
            auction_manager,
            dex,
            parameters,
            debit_pool: 0,
            lot_sizes: Amounts::new(),
        }
    }

    /// The account in which the treasury keeps its funds.
    pub fn account_id(&self) -> (r: &T::AccountId)
        ensures
            *r == self@.parameters.account_id,
    {
        &self.parameters.account_id
    }

    /// The current total bad debt of the system.
    pub fn debit_pool(&self) -> (r: Balance)
        ensures
            r == self@.debit_pool,
    {
        self.debit_pool
    }

    /// The expected size of a lot of `currency_id`; zero where none was set.
    pub fn expected_collateral_auction_size(&self, currency_id: CurrencyId) -> (r: Balance)
        ensures
            r == size_in(self@.lot_sizes, currency_id),
    {
        self.lot_sizes.get(currency_id)
    }

    /// The current total surplus of the system.
    pub fn surplus_pool(&self) -> (r: Balance)
        ensures
            r == self@.surplus_pool(),
    {
        self.currency.free_balance(self.parameters.stable_currency_id, &self.parameters.account_id)
    }

    /// The collateral of a kind that the treasury holds.
    pub fn total_collaterals(&self, currency_id: CurrencyId) -> (r: Balance)
        ensures
            r == self@.total_collaterals(currency_id),
    {
        self.currency.free_balance(currency_id, &self.parameters.account_id)
    }

    /// The collateral of a kind that the treasury holds and that is not
    /// locked in an auction.
    pub fn total_collaterals_not_in_auction(&self, currency_id: CurrencyId) -> (r: Balance)
        ensures
            r == self@.total_collaterals_not_in_auction(currency_id),
    {
        self.currency.free_balance(currency_id, &self.parameters.account_id).saturating_sub(
            self.auction_manager.get_total_collateral_in_auction(currency_id),
        )
    }

    /// Hands the lots of a plan to the auction manager, first to last. Where
    /// the manager refuses one, it is put back as it was before the first.
    fn open_lots(
        auction_manager: &mut T::AuctionManagerHandler,
        refund_receiver: &T::AccountId,
        currency_id: CurrencyId,
        amount: Balance,
        target: Balance,
        lots_count: Balance,
    ) -> (r: DispatchResult)
        requires
            lots_count >= 1,
            lots_count > 1 ==> lots_count <= amount,
        ensures
            r is Ok ==> final(auction_manager)@ == old(auction_manager)@.open_lots(
                lot_plan(*refund_receiver, currency_id, amount, target, lots_count as nat),
            ),
            r is Err ==> final(auction_manager)@ == old(auction_manager)@,
            amount == 0 ==> r is Ok,
    {
        let ghost plan = lot_plan(*refund_receiver, currency_id, amount, target, lots_count as nat);
        let ghost count = lots_count as nat;
        let saved = auction_manager.snapshot();
        let average_amount_per_lot: Balance = amount / lots_count;
        let average_target_per_lot: Balance = target / lots_count;
        let mut unhandled_collateral_amount: Balance = amount;
        let mut unhandled_target: Balance = target;
        let mut created_lots: Balance = 0;
        proof {
            assert(plan.take(0) =~= Seq::<Lot<T::AccountId>>::empty());
            assert(0 * (amount as nat / count) == 0 && 0 * (target as nat / count) == 0)
                by (nonlinear_arith);
        }
        while unhandled_collateral_amount != 0
            invariant
                lots_count >= 1,
                lots_count > 1 ==> lots_count <= amount,
                count == lots_count,
                plan == lot_plan(*refund_receiver, currency_id, amount, target, count),
                average_amount_per_lot == amount as nat / count,
                average_target_per_lot == target as nat / count,
                saved@ == old(auction_manager)@,
                created_lots <= lots_count,
                created_lots < lots_count ==> unhandled_collateral_amount == amount - created_lots
                    * (amount as nat / count) && unhandled_target == target - created_lots * (
                target as nat / count),
                created_lots == lots_count ==> unhandled_collateral_amount == 0,
                amount != 0 && created_lots < lots_count ==> unhandled_collateral_amount != 0,
                amount != 0 ==> auction_manager@ == old(auction_manager)@.open_lots(
                    plan.take(created_lots as int),
                ),
                amount == 0 ==> auction_manager@ == old(auction_manager)@,
            decreases lots_count - created_lots,
        {
            let ghost done = created_lots as nat;
            proof {
                lemma_unhandled_positive(amount as nat, count, done);
                lemma_handled_fits(amount as nat, count, done);
                lemma_handled_fits(target as nat, count, done);
                lemma_share_fits(amount as nat, count);
                lemma_share_fits(target as nat, count);
            }
            created_lots = created_lots.saturating_add(1);
            let (lot_collateral_amount, lot_target) = if created_lots == lots_count {
                // the last lot takes what is left
                (unhandled_collateral_amount, unhandled_target)
            } else {
                (average_amount_per_lot, average_target_per_lot)
            };
            proof {
                assert(lot_collateral_amount == lot_share(amount as nat, count, done as int));
                assert(lot_target == lot_share(target as nat, count, done as int));
                assert(plan[done as int] == (Lot {
                    refund_recipient: *refund_receiver,
                    currency_id,
                    amount: lot_collateral_amount,
                    target: lot_target,
                }));
                assert(plan.take(done as int + 1).drop_last() =~= plan.take(done as int));
                assert(plan.take(done as int + 1).last() == plan[done as int]);
            }
            let answer = auction_manager.new_collateral_auction(
                refund_receiver,
                currency_id,
                lot_collateral_amount,
                lot_target,
            );
            match after_lot(
                answer,
                unhandled_collateral_amount,
                unhandled_target,
                lot_collateral_amount,
                lot_target,
            ) {
                Ok((amount_left, target_left)) => {
                    unhandled_collateral_amount = amount_left;
                    unhandled_target = target_left;
                },
                Err(e) => {
                    *auction_manager = saved;
                    return Err(e);
                },
            }
            proof {
                if created_lots < lots_count {
                    lemma_unhandled_positive(amount as nat, count, created_lots as nat);
                }
            }
        }
        proof {
            if amount != 0 {
                assert(created_lots == plan.len());
                assert(plan.take(plan.len() as int) =~= plan);
            } else {
                assert(plan =~= Seq::<Lot<T::AccountId>>::empty());
            }
        }
        Ok(())
    }

    /// The number of lots that a liquidation of `amount` of `currency_id` is
    /// divided into, where the treasury has that much collateral free.
    fn checked_lots_count(&self, currency_id: CurrencyId, amount: Balance, splited: bool) -> (r:
        Result<Balance, DispatchError>)
        ensures
            self@.total_collaterals_not_in_auction(currency_id) < amount ==> r == Err::<
                Balance,
                _,
            >(DispatchError::Module(Error::CollateralNotEnough)),
            self@.total_collaterals_not_in_auction(currency_id) >= amount ==> (r matches Ok(count)
                && count == self@.lots_count(currency_id, amount, splited)),
            r matches Ok(count) ==> count >= 1 && (count > 1 ==> count <= amount),
    {
        if self.total_collaterals_not_in_auction(currency_id) < amount {
            return Err(DispatchError::Module(Error::CollateralNotEnough));
        }
        let expected_collateral_auction_size = self.expected_collateral_auction_size(currency_id);
        proof {
            lemma_lots_count_bounds(
                amount as nat,
                expected_collateral_auction_size as nat,
                self.parameters.max_auctions_count as nat,
                splited,
            );
        }
        Ok(
            lots_count(
                amount,
                expected_collateral_auction_size,
                self.parameters.max_auctions_count,
                splited,
            ),
        )
    }

    /// The ledger that the treasury keeps its funds in.
    pub fn currency(&self) -> (r: &T::Currency)
        ensures
            r@ == self@.ledger,
    {
        &self.currency
    }

    /// The auction manager that the treasury hands its lots to.
    pub fn auction_manager(&self) -> (r: &T::AuctionManagerHandler)
        ensures
            r@ == self@.auctions,
    {
        &self.auction_manager
    }

    /// The exchange that the treasury swaps on.
    pub fn dex(&self) -> (r: &T::DEX)
        ensures
            *r == self.exchange(),
    {
        &self.dex
    }

    /// Nets the debit pool against the surplus: the smaller of the two is
    /// destroyed in the treasury's account and taken off the debit pool.
    /// Returns the amount netted, or the error of the ledger where it did not
    /// let the amount be destroyed; nothing has changed then.
    pub fn offset_surplus_and_debit(&mut self) -> (r: Result<Balance, DispatchError>)
        ensures
            final(self).exchange() == old(self).exchange(),
            old(self)@.offset_amount() == 0 ==> r == Ok::<_, DispatchError>(0u128),
            match r {
                Ok(burned) => {
                    &&& burned == old(self)@.offset_amount()
                    &&& burned <= old(self)@.stable_issuance()
                    &&& burned == 0 ==> final(self)@ == old(self)@
                    &&& burned > 0 ==> final(self)@ == old(self)@.netted(burned as nat)
                },
                Err(_) => final(self)@ == old(self)@,
            },
            final(self)@.debit_pool == debit_after(
                old(self)@.debit_pool as int,
                (DebitChange::Offset {
                    surplus: old(self)@.surplus_pool() as Balance,
                    burned: r is Ok,
                }),
            ),
    {
        let debit_pool = self.debit_pool;
        let surplus_pool = self.surplus_pool();
        let offset_amount = if debit_pool <= surplus_pool {
            debit_pool
        } else {
            surplus_pool
        };
        if offset_amount == 0 {
            return Ok(0);
        }
        // Burn the amount that is equal to offset amount of stable currency.
        let withdrawn = self.currency.withdraw(
            self.parameters.stable_currency_id,
            &self.parameters.account_id,
            offset_amount,
        );
        let (debit_pool_after, r) = offset_outcome(debit_pool, surplus_pool, withdrawn);
        self.debit_pool = debit_pool_after;
        r
    }

    /// Handles the surplus and the debt of the system at the end of a cycle:
    /// nets the one against the other. A netting that the ledger does not let
    /// through is dropped, and the cycle goes on: the error of the ledger is
    /// handed back for the caller to put on record, and nothing has changed.
    pub fn on_finalize(&mut self) -> (anomaly: Option<DispatchError>)
        ensures
            final(self).exchange() == old(self).exchange(),
            old(self)@.offset_amount() == 0 ==> anomaly is None && final(self)@ == old(self)@,
            match anomaly {
                None => old(self)@.offset_amount() > 0 ==> {
                    &&& old(self)@.offset_amount() <= old(self)@.stable_issuance()
                    &&& final(self)@ == old(self)@.netted(old(self)@.offset_amount())
                },
                Some(_) => old(self)@.offset_amount() > 0 && final(self)@ == old(self)@,
            },
            final(self)@.debit_pool == debit_after(
                old(self)@.debit_pool as int,
                (DebitChange::Offset {
                    surplus: old(self)@.surplus_pool() as Balance,
                    burned: anomaly is None,
                }),
            ),
    {
        // offset the same amount between debit pool and surplus pool
        match self.offset_surplus_and_debit() {
            Ok(_) => None,
            Err(e) => Some(e),
        }
    }

    /// The current total surplus of the system.
    pub fn get_surplus_pool(&self) -> (r: Balance)
        ensures
            r == self@.surplus_pool(),
    {
        self.surplus_pool()
    }

    /// The current total bad debt of the system.
    pub fn get_debit_pool(&self) -> (r: Balance)
        ensures
            r == self@.debit_pool,
    {
        self.debit_pool()
    }

    /// The collateral of a kind that the treasury holds.
    pub fn get_total_collaterals(&self, id: CurrencyId) -> (r: Balance)
        ensures
            r == self@.total_collaterals(id),
    {
        self.total_collaterals(id)
    }

    /// The part that `amount` is of all the stable asset that exists, rounded
    /// down; zero where none exists or the part does not fit a ratio.
    pub fn get_debit_proportion(&self, amount: Balance) -> (r: Ratio)
        ensures
            r.parts() == match rational_parts(amount, self@.stable_issuance() as Balance) {
                Some(parts) => parts,
                None => 0u128,
            },
    {
        let stable_total_supply = self.currency.total_issuance(self.parameters.stable_currency_id);
        match Ratio::checked_from_rational(amount, stable_total_supply) {
            Some(ratio) => ratio,
            None => Ratio::zero(),
        }
    }

    /// Adds `amount` to the debit pool. Fails with `Overflow`, and changes
    /// nothing, where the pool cannot hold that much.
    pub fn on_system_debit(&mut self, amount: Balance) -> (r: DispatchResult)
        ensures
            final(self).exchange() == old(self).exchange(),
            old(self)@.debit_pool + amount <= u128::MAX ==> r is Ok && final(self)@ == (TreasuryView {
                debit_pool: (old(self)@.debit_pool + amount) as Balance,
                ..old(self)@
            }),
            old(self)@.debit_pool + amount > u128::MAX ==> r == Err::<(), _>(
                DispatchError::Arithmetic(ArithmeticError::Overflow),
            ) && final(self)@ == old(self)@,
            final(self)@.debit_pool == debit_after(
                old(self)@.debit_pool as int,
                DebitChange::Issued(amount),
            ),
    {
        match self.debit_pool.checked_add(amount) {
            Some(debit_pool) => {
                self.debit_pool = debit_pool;
                Ok(())
            },
            None => Err(DispatchError::Arithmetic(ArithmeticError::Overflow)),
        }
    }

    /// Issues `amount` of stable asset to the treasury's own account: surplus
    /// that the system has earned. The surplus pool and the stable asset that
    /// exists grow by `amount`, and the debit pool stays as it is. Fails with
    /// `Overflow` where that much more stable asset cannot exist, and with
    /// the ledger's error where it refuses the issue; nothing has changed
    /// then.
    pub fn on_system_surplus(&mut self, amount: Balance) -> (r: DispatchResult)
        ensures
            final(self).exchange() == old(self).exchange(),
            old(self)@.stable_issuance() + amount > u128::MAX ==> r == Err::<(), _>(
                DispatchError::Arithmetic(ArithmeticError::Overflow),
            ),
            match r {
                Ok(()) => {
                    &&& final(self)@ == (TreasuryView {
                        ledger: old(self)@.ledger.deposit(
                            old(self)@.parameters.stable_currency_id,
                            old(self)@.parameters.account_id,
                            amount as nat,
                        ),
                        ..old(self)@
                    })
                    &&& final(self)@.surplus_pool() == old(self)@.surplus_pool() + amount
                    &&& final(self)@.stable_issuance() == old(self)@.stable_issuance() + amount
                },
                Err(_) => final(self)@ == old(self)@,
            },
    {
        self.currency.deposit(
            self.parameters.stable_currency_id,
            &self.parameters.account_id,
            amount,
        )
    }

    /// Issues `debit` of stable asset to `who`, and adds it to the debit pool
    /// where it is not backed by collateral. Fails with `Overflow` where the
    /// debit pool cannot hold that much, and with the ledger's error where it
    /// refuses the issue; nothing has changed then.
    pub fn issue_debit(&mut self, who: &T::AccountId, debit: Balance, backed: bool) -> (r:
        DispatchResult)
        ensures
            final(self).exchange() == old(self).exchange(),
            !backed && old(self)@.debit_pool + debit > u128::MAX ==> r == Err::<(), _>(
                DispatchError::Arithmetic(ArithmeticError::Overflow),
            ),
            old(self)@.stable_issuance() + debit > u128::MAX ==> r == Err::<(), _>(
                DispatchError::Arithmetic(ArithmeticError::Overflow),
            ),
            match r {
                Ok(()) => final(self)@ == (TreasuryView {
                    ledger: old(self)@.ledger.deposit(
                        old(self)@.parameters.stable_currency_id,
                        *who,
                        debit as nat,
                    ),
                    debit_pool: if backed {
                        old(self)@.debit_pool
                    } else {
                        (old(self)@.debit_pool + debit) as Balance
                    },
                    ..old(self)@
                }),
                Err(_) => final(self)@ == old(self)@,
            },
    {
        let debit_pool_before = self.debit_pool;
        // increase system debit if the debit is unbacked
        if !backed {
            match self.on_system_debit(debit) {
                Ok(()) => {},
                Err(e) => {
                    return Err(e);
                },
            }
        }
        let debit_pool_grown = self.debit_pool;
        let deposited = self.currency.deposit(self.parameters.stable_currency_id, who, debit);
        let (debit_pool_after, r) = issue_outcome(debit_pool_before, debit_pool_grown, deposited);
        self.debit_pool = debit_pool_after;
        r
    }

    /// Destroys `debit` of stable asset in the account of `who`.
    pub fn burn_debit(&mut self, who: &T::AccountId, debit: Balance) -> (r: DispatchResult)
        ensures
            final(self).exchange() == old(self).exchange(),
            old(self)@.ledger.balance(old(self)@.parameters.stable_currency_id, *who) < debit ==> r
                == Err::<(), _>(DispatchError::InsufficientBalance),
            match r {
                Ok(()) => debit <= old(self)@.stable_issuance() && final(self)@ == (TreasuryView {
                    ledger: old(self)@.ledger.withdraw(
                        old(self)@.parameters.stable_currency_id,
                        *who,
                        debit as nat,
                    ),
                    ..old(self)@
                }),
                Err(_) => final(self)@ == old(self)@,
            },
    {
        self.currency.withdraw(self.parameters.stable_currency_id, who, debit)
    }

    /// Moves `surplus` of stable asset from `from` to the treasury's account.
    pub fn deposit_surplus(&mut self, from: &T::AccountId, surplus: Balance) -> (r: DispatchResult)
        ensures
            final(self).exchange() == old(self).exchange(),
            old(self)@.ledger.balance(old(self)@.parameters.stable_currency_id, *from) < surplus
                ==> r == Err::<(), _>(DispatchError::InsufficientBalance),
            match r {
                Ok(()) => final(self)@ == (TreasuryView {
                    ledger: old(self)@.ledger.transfer(
                        old(self)@.parameters.stable_currency_id,
                        *from,
                        old(self)@.parameters.account_id,
                        surplus as nat,
                    ),
                    ..old(self)@
                }),
                Err(_) => final(self)@ == old(self)@,
            },
    {
        self.currency.transfer(
            self.parameters.stable_currency_id,
            from,
            &self.parameters.account_id,
            surplus,
        )
    }

    /// Moves `amount` of `currency_id` from `from` to the treasury's account.
    pub fn deposit_collateral(
        &mut self,
        from: &T::AccountId,
        currency_id: CurrencyId,
        amount: Balance,
    ) -> (r: DispatchResult)
        ensures
            final(self).exchange() == old(self).exchange(),
            old(self)@.ledger.balance(currency_id, *from) < amount ==> r == Err::<(), _>(
                DispatchError::InsufficientBalance,
            ),
            match r {
                Ok(()) => final(self)@ == (TreasuryView {
                    ledger: old(self)@.ledger.transfer(
                        currency_id,
                        *from,
                        old(self)@.parameters.account_id,
                        amount as nat,
                    ),
                    ..old(self)@
                }),
                Err(_) => final(self)@ == old(self)@,
            },
    {
        self.currency.transfer(currency_id, from, &self.parameters.account_id, amount)
    }

    /// Moves `amount` of `currency_id` from the treasury's account to `to`.
    pub fn withdraw_collateral(
        &mut self,
        to: &T::AccountId,
        currency_id: CurrencyId,
        amount: Balance,
    ) -> (r: DispatchResult)
        ensures
            final(self).exchange() == old(self).exchange(),
            old(self)@.total_collaterals(currency_id) < amount ==> r == Err::<(), _>(
                DispatchError::InsufficientBalance,
            ),
            match r {
                Ok(()) => final(self)@ == (TreasuryView {
                    ledger: old(self)@.ledger.transfer(
                        currency_id,
                        old(self)@.parameters.account_id,
                        *to,
                        amount as nat,
                    ),
                    ..old(self)@
                }),
                Err(_) => final(self)@ == old(self)@,
            },
    {
        self.currency.transfer(currency_id, &self.parameters.account_id, to, amount)
    }

    /// Moves `amount` of surplus from the treasury's account to the account
    /// that surplus is extracted to.
    pub fn extract_surplus_to_treasury(&mut self, amount: Balance) -> (r: DispatchResult)
        ensures
            final(self).exchange() == old(self).exchange(),
            old(self)@.surplus_pool() < amount ==> r == Err::<(), _>(
                DispatchError::InsufficientBalance,
            ),
            match r {
                Ok(()) => final(self)@ == (TreasuryView {
                    ledger: old(self)@.ledger.transfer(
                        old(self)@.parameters.stable_currency_id,
                        old(self)@.parameters.account_id,
                        old(self)@.parameters.treasury_account,
                        amount as nat,
                    ),
                    ..old(self)@
                }),
                Err(_) => final(self)@ == old(self)@,
            },
    {
        self.currency.transfer(
            self.parameters.stable_currency_id,
            &self.parameters.account_id,
            &self.parameters.treasury_account,
            amount,
        )
    }

    /// Sets the expected size of a lot of `currency_id`, and returns the
    /// notice of it.
    pub fn set_expected_collateral_auction_size(
        &mut self,
        currency_id: CurrencyId,
        size: Balance,
    ) -> (event: Event)
        ensures
            final(self).exchange() == old(self).exchange(),
            final(self)@ == (TreasuryView {
                lot_sizes: old(self)@.lot_sizes.insert(currency_id, size),
                ..old(self)@
            }),
            event == Event::ExpectedCollateralAuctionSizeUpdated(currency_id, size),
    {
        self.lot_sizes.set(currency_id, size);
        Event::ExpectedCollateralAuctionSizeUpdated(currency_id, size)
    }

    /// Turns a swap down where the treasury has not `needed` of `currency_id`
    /// to dispose of, or `swap_path` does not lead from it to the stable
    /// asset.
    fn ensure_swappable(
        &self,
        currency_id: CurrencyId,
        needed: Balance,
        swap_path: &[CurrencyId],
        collateral_in_auction: bool,
    ) -> (r: DispatchResult)
        ensures
            r == match self@.swap_refusal(currency_id, needed, swap_path@, collateral_in_auction) {
                Some(error) => Err::<(), _>(DispatchError::Module(error)),
                None => Ok(()),
            },
    {
        if collateral_in_auction {
            if !(self.total_collaterals(currency_id) >= needed
                && self.auction_manager.get_total_collateral_in_auction(currency_id) >= needed) {
                return Err(DispatchError::Module(Error::CollateralNotEnough));
            }
        } else {
            if !(self.total_collaterals_not_in_auction(currency_id) >= needed) {
                return Err(DispatchError::Module(Error::CollateralNotEnough));
            }
        }
        let swap_path_length = swap_path.len();
        if !(swap_path_length >= 2 && swap_path[0] == currency_id && swap_path[swap_path_length
            - 1] == self.parameters.stable_currency_id) {
            return Err(DispatchError::Module(Error::InvalidSwapPath));
        }
        Ok(())
    }

    /// Swaps exactly `supply_amount` of `currency_id` from the treasury's
    /// account for stable asset along `swap_path`, and returns the amount of
    /// stable asset that it brought, which is at least `min_target_amount`.
    /// Fails with `CollateralNotEnough` where the treasury has not that much
    /// to dispose of, with `InvalidSwapPath` where the path does not lead
    /// from `currency_id` to the stable asset, and with the exchange's error
    /// where it refuses the swap; the ledger is then as it was. The exchange
    /// is asked once, for the treasury's account, with the path, the amount
    /// and the least target as they were given.
    pub fn swap_exact_collateral_to_stable(
        &mut self,
        currency_id: CurrencyId,
        supply_amount: Balance,
        min_target_amount: Balance,
        swap_path: &[CurrencyId],
        collateral_in_auction: bool,
    ) -> (r: Result<Balance, DispatchError>)
        ensures
            final(self)@ == (TreasuryView { ledger: final(self)@.ledger, ..old(self)@ }),
            match old(self)@.swap_refusal(
                currency_id,
                supply_amount,
                swap_path@,
                collateral_in_auction,
            ) {
                Some(error) => {
                    &&& r == Err::<Balance, _>(DispatchError::Module(error))
                    &&& final(self)@ == old(self)@
                    &&& final(self).exchange() == old(self).exchange()
                },
                None => match r {
                    Ok(target) => {
                        &&& target >= min_target_amount
                        &&& settled(
                            old(self)@.ledger,
                            final(self)@.ledger,
                            old(self)@.parameters.account_id,
                            swap_path@,
                            supply_amount as nat,
                            target as nat,
                        )
                        &&& final(self).exchange().swaps() == old(self).exchange().swaps().push(
                            (Swap::ExactSupply {
                                who: old(self)@.parameters.account_id,
                                path: swap_path@,
                                supply_amount,
                                min_target_amount,
                                target,
                            }),
                        )
                    },
                    Err(_) => {
                        &&& final(self)@ == old(self)@
                        &&& final(self).exchange().swaps() == old(self).exchange().swaps()
                    },
                },
            },
    {
        match self.ensure_swappable(currency_id, supply_amount, swap_path, collateral_in_auction) {
            Ok(()) => {},
            Err(e) => {
                return Err(e);
            },
        }
        self.dex.swap_with_exact_supply(
            &mut self.currency,
            &self.parameters.account_id,
            swap_path,
            supply_amount,
            min_target_amount,
        )
    }

    /// Swaps `currency_id` from the treasury's account for exactly
    /// `target_amount` of stable asset along `swap_path`, and returns the
    /// amount of collateral that it cost, which is at most
    /// `max_supply_amount`. Fails with `CollateralNotEnough` where the
    /// treasury has not `max_supply_amount` to dispose of, with
    /// `InvalidSwapPath` where the path does not lead from `currency_id` to
    /// the stable asset, and with the exchange's error where it refuses the
    /// swap; the ledger is then as it was. The exchange is asked once, for
    /// the treasury's account, with the path, the target and the most to be
    /// spent as they were given.
    pub fn swap_collateral_to_exact_stable(
        &mut self,
        currency_id: CurrencyId,
        max_supply_amount: Balance,
        target_amount: Balance,
        swap_path: &[CurrencyId],
        collateral_in_auction: bool,
    ) -> (r: Result<Balance, DispatchError>)
        ensures
            final(self)@ == (TreasuryView { ledger: final(self)@.ledger, ..old(self)@ }),
            match old(self)@.swap_refusal(
                currency_id,
                max_supply_amount,
                swap_path@,
                collateral_in_auction,
            ) {
                Some(error) => {
                    &&& r == Err::<Balance, _>(DispatchError::Module(error))
                    &&& final(self)@ == old(self)@
                    &&& final(self).exchange() == old(self).exchange()
                },
                None => match r {
                    Ok(supply) => {
                        &&& supply <= max_supply_amount
                        &&& settled(
                            old(self)@.ledger,
                            final(self)@.ledger,
                            old(self)@.parameters.account_id,
                            swap_path@,
                            supply as nat,
                            target_amount as nat,
                        )
                        &&& final(self).exchange().swaps() == old(self).exchange().swaps().push(
                            (Swap::ExactTarget {
                                who: old(self)@.parameters.account_id,
                                path: swap_path@,
                                target_amount,
                                max_supply_amount,
                                supply,
                            }),
                        )
                    },
                    Err(_) => {
                        &&& final(self)@ == old(self)@
                        &&& final(self).exchange().swaps() == old(self).exchange().swaps()
                    },
                },
            },
    {
        match self.ensure_swappable(
            currency_id,
            max_supply_amount,
            swap_path,
            collateral_in_auction,
        ) {
            Ok(()) => {},
            Err(e) => {
                return Err(e);
            },
        }
        self.dex.swap_with_exact_target(
            &mut self.currency,
            &self.parameters.account_id,
            swap_path,
            target_amount,
            max_supply_amount,
        )
    }

    /// Puts `amount` of `currency_id` up for auction on the treasury's own
    /// account, as `create_collateral_auctions` does for any account.
    pub fn auction_collateral(
        &mut self,
        currency_id: CurrencyId,
        amount: Balance,
        target: Balance,
        splited: bool,
    ) -> (r: DispatchResult)
        ensures
            final(self).exchange() == old(self).exchange(),
            old(self)@.total_collaterals_not_in_auction(currency_id) < amount ==> r == Err::<(), _>(
                DispatchError::Module(Error::CollateralNotEnough),
            ) && final(self)@ == old(self)@,
            old(self)@.total_collaterals_not_in_auction(currency_id) >= amount ==> {
                &&& r is Ok ==> old(self)@.auctioned(
                    final(self)@,
                    old(self)@.parameters.account_id,
                    currency_id,
                    amount,
                    target,
                    splited,
                )
                &&& r is Err ==> final(self)@ == old(self)@
                &&& amount == 0 ==> r is Ok
            },
    {
        proof {
            self@.lemma_auctioned(
                self@.parameters.account_id,
                currency_id,
                amount,
                target,
                splited,
            );
        }
        match self.checked_lots_count(currency_id, amount, splited) {
            Ok(lots_count) => Self::open_lots(
                &mut self.auction_manager,
                &self.parameters.account_id,
                currency_id,
                amount,
                target,
                lots_count,
            ),
            Err(e) => Err(e),
        }
    }

    /// Puts `amount` of `currency_id` up for auction, to raise `target`, in
    /// lots of about the expected size where `splited` allows it. Every lot
    /// but the last holds the same amount and target, and the last holds what
    /// is left, so that the lots together hold `amount` and `target`. Fails
    /// with `CollateralNotEnough` where the treasury has less than `amount`
    /// free, and with the auction manager's error where it refuses a lot; no
    /// lot is then left behind.
    pub fn create_collateral_auctions(
        &mut self,
        currency_id: CurrencyId,
        amount: Balance,
        target: Balance,
        refund_receiver: T::AccountId,
        splited: bool,
    ) -> (r: DispatchResult)
        ensures
            final(self).exchange() == old(self).exchange(),
            old(self)@.total_collaterals_not_in_auction(currency_id) < amount ==> r == Err::<(), _>(
                DispatchError::Module(Error::CollateralNotEnough),
            ) && final(self)@ == old(self)@,
            old(self)@.total_collaterals_not_in_auction(currency_id) >= amount ==> {
                &&& r is Ok ==> old(self)@.auctioned(
                    final(self)@,
                    refund_receiver,
                    currency_id,
                    amount,
                    target,
                    splited,
                )
                &&& r is Err ==> final(self)@ == old(self)@
                &&& amount == 0 ==> r is Ok
            },
    {
        proof {
            self@.lemma_auctioned(refund_receiver, currency_id, amount, target, splited);
        }
        match self.checked_lots_count(currency_id, amount, splited) {
            Ok(lots_count) => Self::open_lots(
                &mut self.auction_manager,
                &refund_receiver,
                currency_id,
                amount,
                target,
                lots_count,
            ),
            Err(e) => Err(e),
        }
    }
}

impl GenesisConfig {
    /// Sets each expected lot size of the list in `pallet`, first to last.
    pub fn build<T: Config>(&self, pallet: &mut Pallet<T>)
        ensures
            final(pallet).exchange() == old(pallet).exchange(),
            final(pallet)@ == (TreasuryView {
                lot_sizes: assoc_map(old(pallet)@.lot_sizes, self.expected_collateral_auction_size@),
                ..old(pallet)@
            }),
    {
        let mut i: usize = 0;
        while i < self.expected_collateral_auction_size.len()
            invariant
                i <= self.expected_collateral_auction_size.len(),
                pallet.exchange() == old(pallet).exchange(),
                pallet@ == (TreasuryView {
                    lot_sizes: assoc_map(
                        old(pallet)@.lot_sizes,
                        self.expected_collateral_auction_size@.take(i as int),
                    ),
                    ..old(pallet)@
                }),
            decreases self.expected_collateral_auction_size.len() - i,
        {
            let (currency_id, size) = self.expected_collateral_auction_size[i];
            proof {
                let next = self.expected_collateral_auction_size@.take(i + 1);
                assert(next.drop_last() =~= self.expected_collateral_auction_size@.take(i as int));
            }
            pallet.lot_sizes.set(currency_id, size);
            i = i + 1;
        }
        proof {
            assert(self.expected_collateral_auction_size@.take(i as int)
                =~= self.expected_collateral_auction_size@);
        }
    }

    /// A treasury that starts with the expected lot sizes of the list, an
    /// empty debit pool, and the collaborators and parameters given.
    pub fn build_storage<T: Config>(
        &self,
        currency: T::Currency,
        auction_manager: T::AuctionManagerHandler,
        dex: T::DEX,
        parameters: Parameters<T::AccountId>,
    ) -> (r: Result<Pallet<T>, String>)
        ensures
            r matches Ok(pallet) && pallet.exchange() == dex && pallet@ == (TreasuryView {
                ledger: currency@,
                auctions: auction_manager@,
                parameters,
                debit_pool: 0,
                lot_sizes: assoc_map(Map::empty(), self.expected_collateral_auction_size@),
            }),
    {
        let mut pallet = Pallet::new(currency, auction_manager, dex, parameters);
        self.build(&mut pallet);
        Ok(pallet)
    }

    /// Sets each expected lot size of the list in `storage`, first to last.
    pub fn assimilate_storage<T: Config>(&self, storage: &mut Pallet<T>) -> (r: Result<(), String>)
        ensures
            r is Ok,
            final(storage).exchange() == old(storage).exchange(),
            final(storage)@ == (TreasuryView {
                lot_sizes: assoc_map(old(storage)@.lot_sizes, self.expected_collateral_auction_size@),
                ..old(storage)@
            }),
    {
        self.build(storage);
        Ok(())
    }
}

impl Default for GenesisConfig {
    /// The list that sets no size.
    fn default() -> (r: GenesisConfig)
        ensures
            r.expected_collateral_auction_size@ == Seq::<(CurrencyId, Balance)>::empty(),
    {
        GenesisConfig { expected_collateral_auction_size: Vec::new() }
    }
}

} // verus!
