//! How the debit pool moves: it grows when unbacked stable asset is issued,
//! and shrinks when it is netted against the surplus.

use crate::error::{DispatchError, DispatchResult};
use crate::primitives::Balance;
use vstd::prelude::*;

verus! {

/// One thing that happens to the debit pool.
pub enum DebitChange {
    /// Unbacked stable asset of this amount is issued.
    Issued(Balance),
    /// The pool is netted against a surplus of `surplus`; `burned` says
    /// whether the ledger let the netted amount be destroyed.
    Offset { surplus: Balance, burned: bool },
}

/// The amount that is netted when the debit pool meets the surplus: the
/// smaller of the two.
pub open spec fn offset_amount(debit_pool: int, surplus_pool: int) -> int {
    if debit_pool <= surplus_pool {
        debit_pool
    } else {
        surplus_pool
    }
}

/// The debit pool after `change`. An issue that would take the pool beyond
/// what a balance can hold is refused, and an offset that the ledger does not
/// let through is dropped; each leaves the pool as it was.
pub open spec fn debit_after(debit_pool: int, change: DebitChange) -> int {
    match change {
        DebitChange::Issued(amount) => if debit_pool + amount <= u128::MAX {
            debit_pool + amount
        } else {
            debit_pool
        },
        DebitChange::Offset { surplus, burned } => if burned {
            debit_pool - offset_amount(debit_pool, surplus as int)
        } else {
            debit_pool
        },
    }
}

/// The debit pool after each of `changes`, first to last.
pub open spec fn debit_after_all(debit_pool: int, changes: Seq<DebitChange>) -> int
    decreases changes.len(),
{
    if changes.len() == 0 {
        debit_pool
    } else {
        debit_after(debit_after_all(debit_pool, changes.drop_last()), changes.last())
    }
}

/// The debit pool never goes negative, and never beyond what a balance can
/// hold, whatever is issued and however often it is netted.
pub proof fn lemma_debit_pool_never_negative(debit_pool: int, changes: Seq<DebitChange>)
    requires
        0 <= debit_pool <= u128::MAX,
    ensures
        0 <= debit_after_all(debit_pool, changes) <= u128::MAX,
    decreases changes.len(),
{
    if changes.len() > 0 {
        lemma_debit_pool_never_negative(debit_pool, changes.drop_last());
    }
}

/// Netting changes nothing where there is no debt or no surplus.
pub proof fn lemma_offset_of_nothing(debit_pool: int, surplus: Balance, burned: bool)
    requires
        debit_pool == 0 || surplus == 0,
        0 <= debit_pool,
    ensures
        offset_amount(debit_pool, surplus as int) == 0,
        debit_after(debit_pool, DebitChange::Offset { surplus, burned }) == debit_pool,
{
}

/// What follows from the ledger's answer to the burn of a netting: the debit
/// pool afterwards, and what the netting reports. Where the ledger let the
/// netted amount be destroyed, the amount is taken off the pool and
/// reported; where it refused, the pool stays as it is and the ledger's error
/// is handed on as it came.
pub fn offset_outcome(debit_pool: Balance, surplus_pool: Balance, withdrawn: DispatchResult) -> (r: (
    Balance,
    Result<Balance, DispatchError>,
))
    ensures
        r.0 == debit_after(
            debit_pool as int,
            (DebitChange::Offset { surplus: surplus_pool, burned: withdrawn is Ok }),
        ),
        withdrawn is Ok ==> r.1 == Ok::<Balance, DispatchError>(
            offset_amount(debit_pool as int, surplus_pool as int) as Balance,
        ),
        withdrawn matches Err(e) ==> r.1 == Err::<Balance, DispatchError>(e),
{
    match withdrawn {
        Ok(()) => {
            let offset_amount = if debit_pool <= surplus_pool {
                debit_pool
            } else {
                surplus_pool
            };
            (debit_pool - offset_amount, Ok(offset_amount))
        },
        Err(e) => (debit_pool, Err(e)),
    }
}

/// What follows from the ledger's answer to an issue of stable asset: the
/// debit pool afterwards, and what the issue reports. Where the ledger made
/// the issue, the pool keeps what was added to it; where it refused, the pool
/// goes back to what it was and the ledger's error is handed on as it came.
pub fn issue_outcome(
    debit_pool_before: Balance,
    debit_pool_grown: Balance,
    deposited: DispatchResult,
) -> (r: (Balance, DispatchResult))
    ensures
        deposited is Ok ==> r == (debit_pool_grown, Ok::<(), DispatchError>(())),
        deposited matches Err(e) ==> r == (debit_pool_before, Err::<(), DispatchError>(e)),
{
    match deposited {
        Ok(()) => (debit_pool_grown, Ok(())),
        Err(e) => (debit_pool_before, Err(e)),
    }
}

} // verus!
