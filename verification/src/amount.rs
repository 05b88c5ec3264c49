//! Amounts of the native currency.

use vstd::prelude::*;

verus! {

/// The number of Neptune atomic units in one coin.
pub const NAU_PER_COIN: i128 = 4_000_000_000_000_000_000_000_000_000_000;

/// The most coins that an amount can hold.
pub const MAX_COINS: u32 = 42_535_295;

/// An amount of the native currency, in Neptune atomic units.
#[derive(Clone, Copy, Debug, PartialEq, Eq, Structural)]
pub struct NativeCurrencyAmount {
    pub nau: i128,
}

impl NativeCurrencyAmount {
    /// A whole number of coins.
    pub fn coins(num: u32) -> (a: NativeCurrencyAmount)
        requires
            num <= MAX_COINS,
        ensures
            a.nau == num * NAU_PER_COIN,
    {
        assert(0 <= num * NAU_PER_COIN <= 42_535_295 * 4_000_000_000_000_000_000_000_000_000_000int)
            by (nonlinear_arith)
            requires
                num <= 42_535_295,
                NAU_PER_COIN == 4_000_000_000_000_000_000_000_000_000_000int,
        ;
        NativeCurrencyAmount { nau: num as i128 * NAU_PER_COIN }
    }

    /// No money at all.
    pub fn zero() -> (a: NativeCurrencyAmount)
        ensures
            a.nau == 0,
    {
        NativeCurrencyAmount { nau: 0 }
    }

    /// An amount in Neptune atomic units.
    pub fn from_nau(nau: i128) -> (a: NativeCurrencyAmount)
        ensures
            a.nau == nau,
    {
        NativeCurrencyAmount { nau }
    }

    pub fn is_zero(&self) -> (r: bool)
        ensures
            r == (self.nau == 0),
    {
        self.nau == 0
    }

    pub fn is_negative(&self) -> (r: bool)
        ensures
            r == (self.nau < 0),
    {
        self.nau < 0
    }

    /// Halves an amount, rounding down.
    pub fn div_two(&mut self)
        requires
            old(self).nau >= 0,
        ensures
            final(self).nau == old(self).nau / 2,
    {
        self.nau = self.nau / 2;
    }

    /// The difference of two amounts, if it can be represented.
    pub fn checked_sub(&self, other: &NativeCurrencyAmount) -> (r: Option<NativeCurrencyAmount>)
        ensures
            match r {
                Some(a) => a.nau == self.nau - other.nau,
                None => self.nau - other.nau < i128::MIN || self.nau - other.nau > i128::MAX,
            },
    {
        match self.nau.checked_sub(other.nau) {
            Some(nau) => Some(NativeCurrencyAmount { nau }),
            None => None,
        }
    }

    /// The sum of two amounts, if it can be represented.
    pub fn checked_add(&self, other: &NativeCurrencyAmount) -> (r: Option<NativeCurrencyAmount>)
        ensures
            match r {
                Some(a) => a.nau == self.nau + other.nau,
                None => self.nau + other.nau < i128::MIN || self.nau + other.nau > i128::MAX,
            },
    {
        match self.nau.checked_add(other.nau) {
            Some(nau) => Some(NativeCurrencyAmount { nau }),
            None => None,
        }
    }
}

} // verus!
