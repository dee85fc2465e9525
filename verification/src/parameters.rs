//! The settings of the treasury: its fixed parameters, and how the expected
//! lot size of a kind of collateral is read.

use crate::amounts::amount_in;
use crate::primitives::{Balance, CurrencyId};
use vstd::prelude::*;

verus! {

/// What is fixed when a treasury is set up.
pub struct Parameters<AccountId> {
    /// The stable asset.
    pub stable_currency_id: CurrencyId,
    /// The most lots that one liquidation is divided into; zero turns
    /// splitting off.
    pub max_auctions_count: u32,
    /// The account in which the treasury keeps its surplus and the collateral
    /// it has seized.
    pub account_id: AccountId,
    /// The account to which surplus is extracted.
    pub treasury_account: AccountId,
}

/// The expected size of a lot of `currency_id` under `sizes`: zero, which turns
/// splitting off, where none was set.
pub open spec fn size_in(sizes: Map<CurrencyId, Balance>, currency_id: CurrencyId) -> Balance {
    amount_in(sizes, currency_id)
}

} // verus!
