//! The plain values that every part of the treasury speaks of.

use vstd::prelude::*;

verus! {

/// An amount of an asset, in its smallest unit.
pub type Balance = u128;

/// Identifies one asset: the stable asset or a kind of collateral.
#[derive(Clone, Copy, Debug, PartialEq, Eq, Structural)]
pub struct CurrencyId(pub u32);

} // verus!
