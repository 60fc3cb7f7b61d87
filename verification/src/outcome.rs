//! The typed results of ledger operations.

use vstd::prelude::*;

verus! {

/// Why the ledger refused an operation. Every refusal leaves all balances
/// exactly as they were.
#[derive(Clone, Copy, Debug, PartialEq, Eq, Structural)]
pub enum LedgerError {
    /// No account with this id exists.
    AccountNotFound { id: u32 },
    /// The account `id` holds `available`, which is less than `requested`.
    InsufficientFunds { id: u32, requested: u64, available: u64 },
    /// The request is malformed: a zero amount, or a transfer from an
    /// account to itself.
    InvalidTransaction,
    /// Crediting the account `id` would take its balance past `u64::MAX`.
    BalanceOverflow { id: u32 },
}

/// What became of one transaction handed to the ledger.
#[derive(Clone, Copy, Debug, PartialEq, Eq, Structural)]
pub enum Outcome {
    /// The transaction took full effect.
    Applied,
    /// No account with this id exists.
    AccountNotFound { id: u32 },
    /// The account `id` holds `available`, which is less than `requested`.
    InsufficientFunds { id: u32, requested: u64, available: u64 },
    /// The transaction is malformed: a zero amount, or a transfer from an
    /// account to itself.
    InvalidTransaction,
    /// Crediting the account `id` would take its balance past `u64::MAX`.
    BalanceOverflow { id: u32 },
}

impl Outcome {
    /// The outcome that reports `result`.
    pub open spec fn of(result: Result<(), LedgerError>) -> Outcome {
        match result {
            Ok(_) => Outcome::Applied,
            Err(LedgerError::AccountNotFound { id }) => Outcome::AccountNotFound { id },
            Err(LedgerError::InsufficientFunds { id, requested, available }) => {
                Outcome::InsufficientFunds { id, requested, available }
            },
            Err(LedgerError::InvalidTransaction) => Outcome::InvalidTransaction,
            Err(LedgerError::BalanceOverflow { id }) => Outcome::BalanceOverflow { id },
        }
    }

    /// Turns the result of a ledger operation into the outcome to report.
    pub fn from_result(result: Result<(), LedgerError>) -> (outcome: Outcome)
        ensures
            outcome == Outcome::of(result),
    {
        match result {
            Ok(_) => Outcome::Applied,
            Err(LedgerError::AccountNotFound { id }) => Outcome::AccountNotFound { id },
            Err(LedgerError::InsufficientFunds { id, requested, available }) => {
                Outcome::InsufficientFunds { id, requested, available }
            },
            Err(LedgerError::InvalidTransaction) => Outcome::InvalidTransaction,
            Err(LedgerError::BalanceOverflow { id }) => Outcome::BalanceOverflow { id },
        }
    }

    /// Whether the transaction took effect.
    pub fn is_applied(&self) -> (applied: bool)
        ensures
            applied == (*self is Applied),
    {
        match self {
            Outcome::Applied => true,
            _ => false,
        }
    }
}

} // verus!
