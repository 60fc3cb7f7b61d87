//! A single account.

use vstd::prelude::*;
use crate::outcome::LedgerError;

verus! {

/// An account: an id that never changes and a balance in minor currency
/// units. A balance is never negative; a debit that would overdraw the
/// account is refused and leaves it unchanged.
#[derive(Clone, Copy, Debug, PartialEq, Eq, Structural)]
pub struct Account {
    id: u32,
    balance: u64,
}

impl Account {
    /// The id of the account.
    pub closed spec fn spec_id(&self) -> u32 {
        self.id
    }

    /// The balance of the account.
    pub closed spec fn spec_balance(&self) -> u64 {
        self.balance
    }

    /// An account with the given id and opening balance.
    pub fn new(id: u32, balance: u64) -> (account: Account)
        ensures
            account.id() == id,
            account.balance() == balance,
    {
        Account { id, balance }
    }

    /// The id of the account.
    #[verifier::when_used_as_spec(spec_id)]
    pub fn id(&self) -> (id: u32)
        ensures
            id == self.spec_id(),
    {
        self.id
    }

    /// The balance of the account.
    #[verifier::when_used_as_spec(spec_balance)]
    pub fn balance(&self) -> (balance: u64)
        ensures
            balance == self.spec_balance(),
    {
        self.balance
    }

    /// Credits `amount` to the account.
    ///
    /// A zero amount is refused as invalid, and so is, as an overflow, an
    /// amount that would take the balance past `u64::MAX`. A refusal leaves
    /// the account unchanged.
    pub fn deposit(&mut self, amount: u64) -> (result: Result<(), LedgerError>)
        ensures
            final(self).id() == old(self).id(),
            result == (if amount == 0 {
                Err(LedgerError::InvalidTransaction)
            } else if old(self).balance() + amount > u64::MAX {
                Err(LedgerError::BalanceOverflow { id: old(self).id() })
            } else {
                Ok(())
            }),
            result is Ok ==> final(self).balance() == old(self).balance() + amount,
            result is Err ==> final(self).balance() == old(self).balance(),
    {
        if amount == 0 {
            return Err(LedgerError::InvalidTransaction);
        }
        match self.balance.checked_add(amount) {
            Some(balance) => {
                self.balance = balance;
                Ok(())
            },
            None => Err(LedgerError::BalanceOverflow { id: self.id }),
        }
    }

    /// Debits `amount` from the account.
    ///
    /// A zero amount is refused as invalid, and an amount above the balance
    /// for insufficient funds. A refusal leaves the account unchanged.
    pub fn withdraw(&mut self, amount: u64) -> (result: Result<(), LedgerError>)
        ensures
            final(self).id() == old(self).id(),
            result == (if amount == 0 {
                Err(LedgerError::InvalidTransaction)
            } else if old(self).balance() < amount {
                Err(
                    LedgerError::InsufficientFunds {
                        id: old(self).id(),
                        requested: amount,
                        available: old(self).balance(),
                    },
                )
            } else {
                Ok(())
            }),
            result is Ok ==> final(self).balance() == old(self).balance() - amount,
            result is Err ==> final(self).balance() == old(self).balance(),
    {
        if amount == 0 {
            return Err(LedgerError::InvalidTransaction);
        }
        if self.balance >= amount {
            self.balance = self.balance - amount;
            Ok(())
        } else {
            Err(
                LedgerError::InsufficientFunds {
                    id: self.id,
                    requested: amount,
                    available: self.balance,
                },
            )
        }
    }
}

} // verus!
