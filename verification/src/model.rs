//! The ledger as mathematics: balances are a map from account id to an
//! integer, a transaction is a function on such maps, and a run of the
//! processor is the left fold of that function over the delivered sequence.
//!
//! The operations of the ledger and of the processor state their effect
//! through the functions of this module, and the module `laws` proves what
//! follows from them.

use vstd::prelude::*;
use crate::outcome::{LedgerError, Outcome};
use crate::transaction::Transaction;

verus! {

/// Balances by account id.
pub type Balances = Map<u32, int>;

/// No account is overdrawn.
pub open spec fn non_negative(balances: Balances) -> bool {
    forall|id: u32| balances.contains_key(id) ==> 0 <= #[trigger] balances[id]
}

/// Every balance can be held in a `u64`.
pub open spec fn representable(balances: Balances) -> bool {
    forall|id: u32| balances.contains_key(id) ==> 0 <= #[trigger] balances[id] <= u64::MAX
}

/// What the ledger answers to `txn` when its balances are `balances`: `Ok`
/// if it applies the transaction, and else the reason why it does not.
///
/// The accounts are looked up first, then the request itself is examined,
/// then the funds of the debited account, and last the room left in the
/// credited one.
pub open spec fn answer(balances: Balances, txn: Transaction) -> Result<(), LedgerError> {
    match txn {
        Transaction::Deposit { account_id, amount } => {
            if !balances.contains_key(account_id) {
                Err(LedgerError::AccountNotFound { id: account_id })
            } else if amount == 0 {
                Err(LedgerError::InvalidTransaction)
            } else if balances[account_id] + amount > u64::MAX {
                Err(LedgerError::BalanceOverflow { id: account_id })
            } else {
                Ok(())
            }
        },
        Transaction::Withdraw { account_id, amount } => {
            if !balances.contains_key(account_id) {
                Err(LedgerError::AccountNotFound { id: account_id })
            } else if amount == 0 {
                Err(LedgerError::InvalidTransaction)
            } else if balances[account_id] < amount {
                Err(
                    LedgerError::InsufficientFunds {
                        id: account_id,
                        requested: amount,
                        available: balances[account_id] as u64,
                    },
                )
            } else {
                Ok(())
            }
        },
        Transaction::Transfer { from_id, to_id, amount } => {
            if !balances.contains_key(from_id) {
                Err(LedgerError::AccountNotFound { id: from_id })
            } else if !balances.contains_key(to_id) {
                Err(LedgerError::AccountNotFound { id: to_id })
            } else if amount == 0 || from_id == to_id {
                Err(LedgerError::InvalidTransaction)
            } else if balances[from_id] < amount {
                Err(
                    LedgerError::InsufficientFunds {
                        id: from_id,
                        requested: amount,
                        available: balances[from_id] as u64,
                    },
                )
            } else if balances[to_id] + amount > u64::MAX {
                Err(LedgerError::BalanceOverflow { id: to_id })
            } else {
                Ok(())
            }
        },
    }
}

/// The outcome that the processor reports for `txn` when the balances are
/// `balances`.
pub open spec fn outcome_of(balances: Balances, txn: Transaction) -> Outcome {
    Outcome::of(answer(balances, txn))
}

/// The balances once `txn` has taken full effect.
pub open spec fn effect_of(balances: Balances, txn: Transaction) -> Balances {
    match txn {
        Transaction::Deposit { account_id, amount } => {
            balances.insert(account_id, balances[account_id] + amount)
        },
        Transaction::Withdraw { account_id, amount } => {
            balances.insert(account_id, balances[account_id] - amount)
        },
        Transaction::Transfer { from_id, to_id, amount } => {
            balances.insert(from_id, balances[from_id] - amount).insert(
                to_id,
                balances[to_id] + amount,
            )
        },
    }
}

/// The balances after the ledger has answered `txn`: its full effect if it
/// was applied, and the balances as they were if it was refused.
pub open spec fn step(balances: Balances, txn: Transaction) -> Balances {
    if answer(balances, txn) is Ok {
        effect_of(balances, txn)
    } else {
        balances
    }
}

/// The balances after the transactions `txns` have been answered one after
/// the other, first to last.
pub open spec fn run(balances: Balances, txns: Seq<Transaction>) -> Balances
    decreases txns.len(),
{
    if txns.len() == 0 {
        balances
    } else {
        step(run(balances, txns.drop_last()), txns.last())
    }
}

/// The answers to the transactions `txns`, one for each and in their order,
/// each given on the balances that its predecessors left.
pub open spec fn outcomes(balances: Balances, txns: Seq<Transaction>) -> Seq<Outcome> {
    Seq::new(txns.len(), |i: int| outcome_of(run(balances, txns.take(i)), txns[i]))
}

} // verus!
