//! The failures that an operation of the treasury can report.

use vstd::prelude::*;

verus! {

/// A precondition of the treasury that did not hold.
#[derive(Clone, Copy, Debug, PartialEq, Eq, Structural)]
pub enum Error {
    /// The collateral amount of the treasury is not enough.
    CollateralNotEnough,
    /// The surplus pool of the treasury is not enough.
    SurplusPoolNotEnough,
    /// The debit pool of the treasury is not enough.
    DebitPoolNotEnough,
    /// The swap path is invalid.
    InvalidSwapPath,
}

/// A checked integer operation that left the representable range.
#[derive(Clone, Copy, Debug, PartialEq, Eq, Structural)]
pub enum ArithmeticError {
    Underflow,
    Overflow,
    DivisionByZero,
}

/// Why an operation failed.
#[derive(Clone, Copy, Debug, PartialEq, Eq, Structural)]
pub enum DispatchError {
    /// A precondition of the treasury did not hold.
    Module(Error),
    /// An amount left the representable range.
    Arithmetic(ArithmeticError),
    /// The source account of a withdrawal or transfer lacks the funds.
    InsufficientBalance,
    /// A collaborator refused, for a reason that it numbers itself.
    Other(u32),
}

/// The outcome of an operation that returns nothing when it succeeds.
pub type DispatchResult = Result<(), DispatchError>;

} // verus!
