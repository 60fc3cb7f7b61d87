//! Requests to change balances.

use vstd::prelude::*;

verus! {

/// One requested change to the ledger. A transaction is a plain value: it
/// has no identity beyond its content, and two equal transactions are
/// processed independently of each other.
#[derive(Clone, Copy, Debug, PartialEq, Eq, Structural)]
pub enum Transaction {
    /// Credit `amount` to the account `account_id`.
    Deposit { account_id: u32, amount: u64 },
    /// Debit `amount` from the account `account_id`.
    Withdraw { account_id: u32, amount: u64 },
    /// Move `amount` from the account `from_id` to the account `to_id`.
    Transfer { from_id: u32, to_id: u32, amount: u64 },
}

impl Transaction {
    /// The amount that the transaction asks to move.
    pub open spec fn amount(&self) -> u64 {
        match *self {
            Transaction::Deposit { amount, .. } => amount,
            Transaction::Withdraw { amount, .. } => amount,
            Transaction::Transfer { amount, .. } => amount,
        }
    }

    /// A transaction is well formed when it moves a positive amount and, for
    /// a transfer, names two different accounts. Whether it can be applied
    /// depends on the ledger; whether it is well formed does not.
    pub open spec fn spec_is_well_formed(&self) -> bool {
        &&& self.amount() > 0
        &&& (*self matches Transaction::Transfer { from_id, to_id, .. } ==> from_id != to_id)
    }

    /// Whether the transaction moves a positive amount between accounts
    /// that differ.
    #[verifier::when_used_as_spec(spec_is_well_formed)]
    pub fn is_well_formed(&self) -> (well_formed: bool)
        ensures
            well_formed == self.spec_is_well_formed(),
    {
        match *self {
            Transaction::Deposit { amount, .. } => amount > 0,
            Transaction::Withdraw { amount, .. } => amount > 0,
            Transaction::Transfer { from_id, to_id, amount } => amount > 0 && from_id != to_id,
        }
    }
}

} // verus!
