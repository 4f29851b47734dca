//! Fixed-point monetary and quantity values.
//!
//! Every numeric value of a receipt (price, quantity, percentage) is a
//! signed count of ten-thousandths, so four fractional digits are kept
//! exactly.  Currency tolerances (one cent, ten cents) and the VAT
//! schedule breakpoints are exact in this representation.

use vstd::prelude::*;

verus! {

/// Number of units per whole currency unit: four fractional digits.
pub const AMOUNT_SCALE: i64 = 10_000;

/// Largest magnitude, in units, that the engine accepts for a single
/// observed value: ten billion whole currency units.  Keeping every
/// stored value under this bound lets sums and products of line items
/// be computed in 128-bit arithmetic without overflow.
pub const AMOUNT_LIMIT: i64 = 100_000_000_000_000;

/// A fixed-point number with four fractional digits: the value is
/// `units / 10_000`.
#[derive(Debug, Clone, Copy, PartialEq, Eq, Structural)]
pub struct Amount {
    pub units: i64,
}

impl Amount {
    /// The mathematical value, in units of one ten-thousandth.
    pub open spec fn spec_units(self) -> int {
        self.units as int
    }

    /// Whether the value lies within the engine's representable range.
    pub open spec fn spec_in_range(self) -> bool {
        -(AMOUNT_LIMIT as int) <= self.units <= AMOUNT_LIMIT as int
    }

    /// Builds an amount from a raw count of ten-thousandths.
    pub fn from_units(units: i64) -> (r: Amount)
        ensures
            r.units == units,
    {
        Amount { units }
    }

    /// The zero amount.
    pub fn zero() -> (r: Amount)
        ensures
            r.units == 0,
    {
        Amount { units: 0 }
    }

    /// True when the value lies within the engine's representable range.
    pub fn in_range(&self) -> (r: bool)
        ensures
            r == self.spec_in_range(),
    {
        -AMOUNT_LIMIT <= self.units && self.units <= AMOUNT_LIMIT
    }

    /// True when the value is strictly negative.
    pub fn is_negative(&self) -> (r: bool)
        ensures
            r == (self.units < 0),
    {
        self.units < 0
    }

    /// True when the value is strictly positive.
    pub fn is_positive(&self) -> (r: bool)
        ensures
            r == (self.units > 0),
    {
        self.units > 0
    }
}

} // verus!
