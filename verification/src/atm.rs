//! A cash machine.

use vstd::prelude::*;
use crate::cash::{Cash, InsufficientCash};

verus! {

/// A cash machine: it owns its store of cash and hands cash out on request.
pub struct ATM {
    cash: Cash,
}

impl ATM {
    /// The amount of cash in the machine.
    pub closed spec fn spec_check_balance(&self) -> u32 {
        self.cash.balance()
    }

    /// A machine stocked with `initial_amount`.
    pub fn new(initial_amount: u32) -> (atm: ATM)
        ensures
            atm.check_balance() == initial_amount,
    {
        ATM { cash: Cash::new(initial_amount) }
    }

    /// Hands out `amount` if the machine holds that much, and nothing
    /// otherwise.
    pub fn withdraw_cash(&mut self, amount: u32) -> (result: Result<u32, InsufficientCash>)
        ensures
            result == (if old(self).check_balance() >= amount {
                Ok(amount)
            } else {
                Err(InsufficientCash { requested: amount, available: old(self).check_balance() })
            }),
            final(self).check_balance() == (if old(self).check_balance() >= amount {
                old(self).check_balance() - amount
            } else {
                old(self).check_balance() as int
            }),
    {
        self.cash.withdraw(amount)
    }

    /// The amount of cash in the machine.
    #[verifier::when_used_as_spec(spec_check_balance)]
    pub fn check_balance(&self) -> (balance: u32)
        ensures
            balance == self.spec_check_balance(),
    {
        self.cash.balance()
    }
}

} // verus!
