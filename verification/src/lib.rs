//! Accounting and liquidation core of a treasury for collateralized debt
//! positions: it tracks the system's bad debt and surplus of the stable asset,
//! nets one against the other, and turns seized collateral into stable asset
//! through auction lots or a swap.

pub mod amounts;
pub mod assoc;
pub mod auction;
pub mod debit;
pub mod dex;
pub mod error;
pub mod ledger;
pub mod lots;
pub mod memory;
pub mod parameters;
pub mod primitives;
pub mod ratio;
pub mod treasury;

pub use error::{ArithmeticError, DispatchError, DispatchResult, Error};
pub use primitives::{Balance, CurrencyId};
pub use treasury::{Config, Event, GenesisConfig, Pallet, TreasuryView};
