//! Exact decimal numbers stored as scaled integers.

use vstd::prelude::*;

verus! {

/// Number of [`Fixed`] units in one whole: a `Fixed` counts ten-thousandths.
pub const FIXED_SCALE: i64 = 10000;

/// An exact decimal number with four fraction digits, stored as a count of
/// ten-thousandths. `Fixed { units: 24000 }` is the number 2.4.
#[derive(Clone, Copy, Debug, PartialEq, Eq, Structural)]
pub struct Fixed {
    pub units: i64,
}

impl Fixed {
    /// The number `units / 10^4`.
    pub fn from_units(units: i64) -> (r: Fixed)
        ensures
            r.units == units,
    {
        Fixed { units }
    }

    /// The whole number `n`.
    pub fn from_whole(n: i64) -> (r: Fixed)
        requires
            -900_000_000_000_000 <= n <= 900_000_000_000_000,
        ensures
            r.units == n * FIXED_SCALE,
    {
        Fixed { units: n * FIXED_SCALE }
    }
}

/// An exact decimal number with eight fraction digits, stored as a count of
/// hundred-millionths. It holds the exact product of two [`Fixed`] values.
#[derive(Clone, Copy, Debug, PartialEq, Eq, Structural)]
pub struct Fixed8 {
    pub units: i128,
}

impl Fixed8 {
    /// The exact product of two four-digit decimals, as an eight-digit decimal:
    /// `(a / 10^4) * (b / 10^4) == (a * b) / 10^8`.
    pub fn product(a: Fixed, b: Fixed) -> (r: Fixed8)
        ensures
            r.units == a.units * b.units,
    {
        proof {
            assert(-0x8000_0000_0000_0000 * 0x8000_0000_0000_0000 <= a.units * b.units
                <= 0x8000_0000_0000_0000 * 0x8000_0000_0000_0000) by (nonlinear_arith)
                requires
                    -0x8000_0000_0000_0000 <= a.units < 0x8000_0000_0000_0000,
                    -0x8000_0000_0000_0000 <= b.units < 0x8000_0000_0000_0000,
            ;
        }
        Fixed8 { units: (a.units as i128) * (b.units as i128) }
    }
}

} // verus!
