//! The cash held by a cash machine.

use vstd::prelude::*;

verus! {

/// A withdrawal asked for more cash than there is.
#[derive(Clone, Copy, Debug, PartialEq, Eq, Structural)]
pub struct InsufficientCash {
    /// The amount that was asked for.
    pub requested: u32,
    /// The amount that was there, and still is.
    pub available: u32,
}

/// A store of cash, counted in whole currency units.
pub struct Cash {
    amount: u32,
}

impl Cash {
    /// The amount of cash in the store.
    pub closed spec fn spec_balance(&self) -> u32 {
        self.amount
    }

    /// A store that holds `amount`.
    pub fn new(amount: u32) -> (cash: Cash)
        ensures
            cash.balance() == amount,
    {
        Cash { amount }
    }

    /// Takes `amount` out of the store and returns it.
    ///
    /// If the store holds less than `amount`, nothing is taken out, and the
    /// error says what was asked for and what is there.
    pub fn withdraw(&mut self, amount: u32) -> (result: Result<u32, InsufficientCash>)
        ensures
            result == (if old(self).balance() >= amount {
                Ok(amount)
            } else {
                Err(InsufficientCash { requested: amount, available: old(self).balance() })
            }),
            final(self).balance() == (if old(self).balance() >= amount {
                old(self).balance() - amount
            } else {
                old(self).balance() as int
            }),
    {
        if self.amount >= amount {
            self.amount = self.amount - amount;
            Ok(amount)
        } else {
            Err(InsufficientCash { requested: amount, available: self.amount })
        }
    }

    /// The amount of cash in the store.
    #[verifier::when_used_as_spec(spec_balance)]
    pub fn balance(&self) -> (balance: u32)
        ensures
            balance == self.spec_balance(),
    {
        self.amount
    }
}

} // verus!
