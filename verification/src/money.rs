//! Amounts of money, kept as a whole number of minor units.

use vstd::prelude::*;

verus! {

/// An amount of money in minor units (cents).
///
/// The amount may be zero or negative; [`Money::is_greater_than_zero`] is
/// what callers use to tell a chargeable amount from the rest.
#[derive(Clone, Copy, Debug, PartialEq, Eq, Structural)]
pub struct Money {
    pub amount: i64,
}

impl View for Money {
    type V = int;

    /// The amount as a mathematical integer.
    open spec fn view(&self) -> int {
        self.amount as int
    }
}

impl Money {
    /// Wraps an amount given in minor units.
    pub fn new(amount: i64) -> (money: Money)
        ensures
            money.amount == amount,
    {
        Money { amount }
    }

    /// No money at all.
    pub fn zero() -> (money: Money)
        ensures
            money.amount == 0,
    {
        Money { amount: 0 }
    }

    /// Whether the amount is strictly positive.
    pub fn is_greater_than_zero(&self) -> (positive: bool)
        ensures
            positive == (self@ > 0),
    {
        self.amount > 0
    }

    /// Adds `other`, or gives `None` when the sum leaves the range of `i64`.
    pub fn checked_add(&self, other: Money) -> (sum: Option<Money>)
        ensures
            match sum {
                Some(total) => total@ == self@ + other@,
                None => self@ + other@ < i64::MIN || self@ + other@ > i64::MAX,
            },
    {
        match self.amount.checked_add(other.amount) {
            Some(amount) => Some(Money { amount }),
            None => None,
        }
    }

    /// Multiplies by a quantity, or gives `None` when the product leaves the
    /// range of `i64`.
    pub fn checked_mul(&self, quantity: u64) -> (product: Option<Money>)
        ensures
            match product {
                Some(total) => total@ == self@ * quantity,
                None => self@ * quantity < i64::MIN || self@ * quantity > i64::MAX,
            },
    {
        assert(-0x8000_0000_0000_0000_0000_0000_0000_0000 < self.amount * quantity
            < 0x8000_0000_0000_0000_0000_0000_0000_0000) by (nonlinear_arith)
            requires
                -0x8000_0000_0000_0000 <= self.amount < 0x8000_0000_0000_0000,
                0 <= quantity < 0x1_0000_0000_0000_0000,
        ;
        let wide: i128 = (self.amount as i128) * (quantity as i128);
        if wide < i64::MIN as i128 || wide > i64::MAX as i128 {
            None
        } else {
            Some(Money { amount: wide as i64 })
        }
    }
}

} // verus!
