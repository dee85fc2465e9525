//! The auction manager that sells collateral lot by lot.

use crate::error::DispatchResult;
use crate::primitives::{Balance, CurrencyId};
use vstd::prelude::*;

verus! {

/// One lot of collateral put up for auction.
#[derive(Debug, PartialEq, Eq)]
pub struct Lot<AccountId> {
    /// Who receives the collateral that the auction does not need.
    pub refund_recipient: AccountId,
    /// The kind of collateral.
    pub currency_id: CurrencyId,
    /// The amount of collateral in the lot.
    pub amount: Balance,
    /// The amount of stable asset that the lot is meant to raise.
    pub target: Balance,
}

/// What an auction manager holds, as far as the treasury is concerned: the
/// collateral lots it was handed, in the order they came, and how much
/// collateral of each kind is locked in auctions now. An entry that is absent
/// counts as zero.
pub struct AuctionView<AccountId> {
    pub lots: Seq<Lot<AccountId>>,
    pub in_auction: Map<CurrencyId, nat>,
}

impl<AccountId> AuctionView<AccountId> {
    /// The manager that never saw a lot.
    pub open spec fn empty() -> Self {
        AuctionView { lots: Seq::empty(), in_auction: Map::empty() }
    }

    /// How much of `currency_id` is locked in auctions.
    pub open spec fn total_collateral_in_auction(self, currency_id: CurrencyId) -> nat {
        if self.in_auction.dom().contains(currency_id) {
            self.in_auction[currency_id]
        } else {
            0
        }
    }

    /// The manager after it took `lot`.
    pub open spec fn open_lot(self, lot: Lot<AccountId>) -> Self {
        AuctionView {
            lots: self.lots.push(lot),
            in_auction: self.in_auction.insert(
                lot.currency_id,
                (self.total_collateral_in_auction(lot.currency_id) + lot.amount) as nat,
            ),
        }
    }

    /// The manager after it took each of `lots`, first to last.
    pub open spec fn open_lots(self, lots: Seq<Lot<AccountId>>) -> Self
        decreases lots.len(),
    {
        if lots.len() == 0 {
            self
        } else {
            self.open_lots(lots.drop_last()).open_lot(lots.last())
        }
    }
}

/// An auction manager, as the treasury uses one. Whether it takes a lot is the
/// manager's to decide; a lot that it refuses changes nothing.
pub trait AuctionManager<AccountId>: Sized {
    /// What the manager holds. A manager that is not verified may leave this
    /// at the empty default; what this contract says of its lots is then not
    /// true of it, and nothing that rests on the contract was proved of that
    /// manager.
    open spec fn view(&self) -> AuctionView<AccountId> {
        AuctionView::empty()
    }

    /// How much of `currency_id` is locked in auctions.
    fn get_total_collateral_in_auction(&self, currency_id: CurrencyId) -> (r: Balance)
        ensures
            r == self@.total_collateral_in_auction(currency_id),
    ;

    /// Puts `amount` of `currency_id` up for auction, to raise `target`.
    fn new_collateral_auction(
        &mut self,
        refund_recipient: &AccountId,
        currency_id: CurrencyId,
        amount: Balance,
        target: Balance,
    ) -> (r: DispatchResult)
        ensures
            r is Ok ==> final(self)@ == old(self)@.open_lot(
                (Lot { refund_recipient: *refund_recipient, currency_id, amount, target }),
            ),
            r is Err ==> final(self)@ == old(self)@,
    ;

    /// A copy of the manager, to put back where an operation has to be undone.
    fn snapshot(&self) -> (copy: Self)
        ensures
            copy@ == self@,
    ;
}

} // verus!
