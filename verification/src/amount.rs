//! Fixed-point amounts of a fungible asset.

use vstd::prelude::*;

verus! {

/// Number of attos, the smallest part of an amount, in one whole unit.
pub const ATTOS_PER_UNIT: u128 = 1_000_000_000_000_000_000;

/// An amount of a fungible asset with eighteen decimal places, held as a
/// signed count of attos in 192 bits: `attos_high` carries the sign and the
/// upper 64 bits, `attos_low` the lower 128.
#[derive(Clone, Copy, Debug, PartialEq, Eq, Hash, Structural)]
pub struct Decimal {
    pub attos_high: i64,
    pub attos_low: u128,
}

impl Decimal {
    /// The amount as a count of attos.
    pub open spec fn attos(self) -> int {
        self.attos_high * 0x1_0000_0000_0000_0000_0000_0000_0000_0000int + self.attos_low
    }

    /// The amount of nothing.
    pub fn zero() -> (amount: Decimal)
        ensures
            amount.attos() == 0,
            amount == (Decimal { attos_high: 0, attos_low: 0 }),
    {
        Decimal { attos_high: 0, attos_low: 0 }
    }

    /// The amount of `units` whole units.
    pub fn whole(units: u64) -> (amount: Decimal)
        ensures
            amount.attos() == units * ATTOS_PER_UNIT,
            amount.attos_high == 0,
    {
        assert(units * ATTOS_PER_UNIT <= u128::MAX) by (nonlinear_arith)
            requires
                units <= u64::MAX,
                ATTOS_PER_UNIT == 1_000_000_000_000_000_000,
        ;
        let wide: u128 = units as u128;
        Decimal { attos_high: 0, attos_low: wide * ATTOS_PER_UNIT }
    }

    pub fn is_zero(&self) -> (zero: bool)
        ensures
            zero == (self.attos() == 0),
            zero == (*self == Decimal { attos_high: 0, attos_low: 0 }),
    {
        self.attos_high == 0 && self.attos_low == 0
    }
}

} // verus!
