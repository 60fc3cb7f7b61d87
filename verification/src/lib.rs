//! A bank ledger with a single-consumer transaction pipeline, verified with
//! Verus.
//!
//! - [`model`] says what a transaction does to a map of balances, and what a
//!   sequence of transactions does: the left fold of the single step.
//! - [`ledger`] holds the accounts and implements deposit, withdrawal and
//!   transfer against that model. A transfer changes both balances or none.
//! - [`queue`] is the first-in, first-out hand-off between producers and the
//!   consumer, with a producer side that can be closed.
//! - [`processor`] is the consumer: idle, processing or terminated. It
//!   applies what the queue hands out, in order, and reports one outcome for
//!   each transaction.
//! - [`laws`] proves what follows: atomicity of transfers, balances that
//!   never go negative, refusals that change nothing, ordering, and that a
//!   closed queue is drained to the last transaction.
//!
//! Amounts and balances are whole numbers of the smallest currency unit.
//! Locks and threads are left to the caller: every operation that changes
//! the ledger takes it by exclusive reference, which is what makes it
//! indivisible.
//!
//! The modules [`cash`], [`atm`], [`applicant`] and [`plane`] are small
//! verified utilities that do not touch the ledger.

pub mod account;
pub mod applicant;
pub mod atm;
pub mod cash;
pub mod laws;
pub mod ledger;
pub mod model;
pub mod outcome;
pub mod plane;
pub mod processor;
pub mod queue;
pub mod transaction;

pub use account::Account;
pub use applicant::{process_loan, Applicant, Approval, LoanError};
pub use atm::ATM;
pub use cash::{Cash, InsufficientCash};
pub use ledger::{new_ledger, DuplicateAccount, Ledger};
pub use outcome::{LedgerError, Outcome};
pub use plane::{BookingError, Plane, Seat};
pub use processor::{Processor, ProcessorState};
pub use queue::{QueueState, Received, TransactionQueue};
pub use transaction::Transaction;
