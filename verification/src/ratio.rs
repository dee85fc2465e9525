//! Fixed-point ratios with eighteen decimal places.

use sp_runtime::FixedPointNumber;
use sp_runtime::FixedU128;
use vstd::prelude::*;

verus! {

/// The number of fractional units that make one whole.
pub const ACCURACY: u128 = 1_000_000_000_000_000_000;

/// A non-negative ratio, held as a count of fractional units.
#[derive(Clone, Copy, Debug, PartialEq, Eq, Structural)]
pub struct Ratio {
    inner: u128,
}

/// The quotient `n / d` in fractional units, rounded down; `None` where `d` is
/// zero or the quotient does not fit.
pub open spec fn rational_parts(n: u128, d: u128) -> Option<u128> {
    if d == 0 || (n * ACCURACY) / (d as int) > u128::MAX {
        None
    } else {
        Some(((n * ACCURACY) / (d as int)) as u128)
    }
}

/// Calls `FixedU128::checked_from_rational` on two `u128` and hands back the
/// inner value of the result. Not proved: that the call gives `None` for a
/// zero denominator or a quotient beyond `u128`, and otherwise
/// `n * 10^18 / d` rounded down.
#[verifier::external_body]
fn fixed_u128_from_rational(n: u128, d: u128) -> (r: Option<u128>)
    ensures
        r == rational_parts(n, d),
{
    match FixedU128::checked_from_rational(n, d) {
        Some(q) => Some(q.into_inner()),
        None => None,
    }
}

impl Ratio {
    /// The number of fractional units that the ratio counts.
    pub closed spec fn parts(self) -> u128 {
        self.inner
    }

    /// The ratio of `inner` fractional units.
    pub fn from_inner(inner: u128) -> (r: Ratio)
        ensures
            r.parts() == inner,
    {
        Ratio { inner }
    }

    /// The number of fractional units that the ratio counts.
    pub fn into_inner(self) -> (r: u128)
        ensures
            r == self.parts(),
    {
        self.inner
    }

    /// The ratio zero.
    pub fn zero() -> (r: Ratio)
        ensures
            r.parts() == 0,
    {
        Ratio { inner: 0 }
    }

    /// The ratio `n / d`, rounded down to a fractional unit; `None` where `d`
    /// is zero or the ratio does not fit.
    pub fn checked_from_rational(n: u128, d: u128) -> (r: Option<Ratio>)
        ensures
            match rational_parts(n, d) {
                Some(q) => r matches Some(ratio) && ratio.parts() == q,
                None => r is None,
            },
    {
        match fixed_u128_from_rational(n, d) {
            Some(q) => Some(Ratio { inner: q }),
            None => None,
        }
    }
}

} // verus!
