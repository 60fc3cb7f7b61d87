//! The single consumer that applies transactions to the ledger.

use vstd::prelude::*;
use crate::ledger::Ledger;
use crate::model::{outcome_of, outcomes, run, step, Balances};
use crate::outcome::Outcome;
use crate::queue::{QueueState, Received, TransactionQueue};
use crate::transaction::Transaction;

verus! {

/// Where the processor stands.
#[derive(Clone, Copy, Debug, PartialEq, Eq, Structural)]
pub enum ProcessorState {
    /// Waiting for the queue to hand out the next transaction.
    Idle,
    /// Holding `txn`, which has left the queue and has not reached the
    /// ledger yet. In this state the processor needs nothing from the queue.
    Processing { txn: Transaction },
    /// The queue was closed and drained. The processor touches neither the
    /// queue nor the ledger any more.
    Terminated,
}

impl ProcessorState {
    /// The state after an idle processor has been handed `received`. A
    /// processor that is not idle does not take anything from the queue, and
    /// stays where it is.
    pub open spec fn on_receive(self, received: Received) -> ProcessorState {
        match (self, received) {
            (ProcessorState::Idle, Received::Item(txn)) => ProcessorState::Processing { txn },
            (ProcessorState::Idle, Received::Closed) => ProcessorState::Terminated,
            _ => self,
        }
    }

    /// The state after the ledger has answered the transaction in hand, if
    /// there was one: whatever the answer, the processor is idle again.
    pub open spec fn on_complete(self) -> ProcessorState {
        match self {
            ProcessorState::Processing { .. } => ProcessorState::Idle,
            _ => self,
        }
    }

    /// The transactions that reach the ledger when a processor in this state
    /// works through `queue` until nothing is left in transit: the one in
    /// hand, if any, and then those in transit, oldest first. A terminated
    /// processor takes none.
    pub open spec fn delivered(self, queue: QueueState) -> Seq<Transaction> {
        match self {
            ProcessorState::Idle => queue.pending,
            ProcessorState::Processing { txn } => seq![txn] + queue.pending,
            ProcessorState::Terminated => Seq::empty(),
        }
    }

    /// The state in which working through `queue` ends: terminated if the
    /// queue is closed, and idle, waiting for more, if it is open.
    pub open spec fn after_run(self, queue: QueueState) -> ProcessorState {
        if self is Terminated || queue.closed {
            ProcessorState::Terminated
        } else {
            ProcessorState::Idle
        }
    }

    /// The queue as working through it leaves it: with nothing in transit,
    /// unless the processor had terminated before and did not touch it.
    pub open spec fn queue_after_run(self, queue: QueueState) -> QueueState {
        if self is Terminated {
            queue
        } else {
            QueueState { pending: Seq::empty(), closed: queue.closed }
        }
    }
}

/// The consumer of the queue and the only writer of the ledger. It takes
/// transactions in the order in which the queue hands them out, lets the
/// ledger answer each of them in full before it takes the next, and reports
/// one outcome for each. A refused transaction is reported like any other
/// and does not stop the processor.
pub struct Processor {
    ledger: Ledger,
    state: ProcessorState,
}

impl Processor {
    /// The ledger that the processor writes to.
    pub closed spec fn spec_ledger(&self) -> &Ledger {
        &self.ledger
    }

    /// Where the processor stands.
    pub closed spec fn spec_state(&self) -> ProcessorState {
        self.state
    }

    /// The balances of the processor's ledger.
    pub open spec fn balances(&self) -> Balances {
        self.spec_ledger()@
    }

    /// An idle processor bound to `ledger`.
    pub fn new(ledger: Ledger) -> (processor: Processor)
        ensures
            processor.ledger() == ledger,
            processor.state() is Idle,
    {
        Processor { ledger, state: ProcessorState::Idle }
    }

    /// Where the processor stands.
    #[verifier::when_used_as_spec(spec_state)]
    pub fn state(&self) -> (state: ProcessorState)
        ensures
            state == self.spec_state(),
    {
        self.state
    }

    /// The ledger that the processor writes to, for reading.
    #[verifier::when_used_as_spec(spec_ledger)]
    pub fn ledger(&self) -> (ledger: &Ledger)
        ensures
            ledger == self.spec_ledger(),
    {
        &self.ledger
    }

    /// Gives the ledger back and ends the processor.
    pub fn into_ledger(self) -> (ledger: Ledger)
        ensures
            ledger == self.ledger(),
    {
        self.ledger
    }

    /// Takes what the queue handed out.
    ///
    /// An idle processor takes a transaction in hand, goes on waiting if
    /// there was none, and terminates if the queue reported that it is
    /// closed and drained. The ledger is not touched. A processor that is
    /// not idle takes nothing and hands a transaction that it was offered
    /// back to the caller, so that none is dropped.
    pub fn accept(&mut self, received: Received) -> (refused: Option<Transaction>)
        ensures
            final(self).state() == old(self).state().on_receive(received),
            final(self).ledger() == old(self).ledger(),
            refused == (match received {
                Received::Item(txn) if !(old(self).state() is Idle) => Some(txn),
                _ => None,
            }),
    {
        match self.state {
            ProcessorState::Idle => {
                match received {
                    Received::Item(txn) => {
                        self.state = ProcessorState::Processing { txn };
                    },
                    Received::Empty => {},
                    Received::Closed => {
                        self.state = ProcessorState::Terminated;
                    },
                }
                None
            },
            _ => {
                match received {
                    Received::Item(txn) => Some(txn),
                    _ => None,
                }
            },
        }
    }

    /// Lets the ledger answer the transaction in hand and reports the
    /// outcome. Whatever the outcome, the processor is idle afterwards. A
    /// processor with no transaction in hand does nothing and reports
    /// nothing.
    pub fn complete(&mut self) -> (outcome: Option<Outcome>)
        ensures
            final(self).state() == old(self).state().on_complete(),
            final(self).ledger().ids() == old(self).ledger().ids(),
            match old(self).state() {
                ProcessorState::Processing { txn } => {
                    &&& outcome == Some(outcome_of(old(self).balances(), txn))
                    &&& final(self).balances() == step(old(self).balances(), txn)
                },
                _ => outcome is None && final(self).ledger() == old(self).ledger(),
            },
    {
        match self.state {
            ProcessorState::Processing { txn } => {
                let outcome = self.ledger.apply(txn);
                self.state = ProcessorState::Idle;
                Some(outcome)
            },
            _ => None,
        }
    }

    /// Works through the queue until nothing is left in transit, and returns
    /// the outcomes in the order in which the transactions were delivered.
    ///
    /// The transaction in hand, if any, comes first, then the transactions
    /// in transit, oldest first. Each is answered by the ledger on the
    /// balances that its predecessors left, and yields exactly one outcome,
    /// whether it was applied or refused. At the end the processor has
    /// terminated if the queue is closed, and is idle if it is open. A
    /// processor that had terminated before does nothing.
    pub fn run(&mut self, queue: &mut TransactionQueue) -> (reported: Vec<Outcome>)
        ensures
            reported@ == outcomes(
                old(self).balances(),
                old(self).state().delivered(old(queue)@),
            ),
            final(self).balances() == run(
                old(self).balances(),
                old(self).state().delivered(old(queue)@),
            ),
            final(self).ledger().ids() == old(self).ledger().ids(),
            final(self).state() == old(self).state().after_run(old(queue)@),
            final(queue)@ == old(self).state().queue_after_run(old(queue)@),
    {
        let ghost start = self.balances();
        let ghost txns = self.state.delivered(queue@);
        let ghost closed = queue@.closed;
        let mut reported: Vec<Outcome> = Vec::new();
        if self.is_terminated() {
            return reported;
        }
        match self.complete() {
            Some(outcome) => {
                reported.push(outcome);
                proof {
                    assert(txns.take(1).drop_last() =~= txns.take(0));
                    assert(run(start, txns.take(0)) == start);
                }
            },
            None => {},
        }
        while queue.len() > 0
            invariant
                reported@.len() <= txns.len(),
                self.state() is Idle,
                queue@.pending == txns.skip(reported@.len() as int),
                queue@.closed == closed,
                self.balances() == run(start, txns.take(reported@.len() as int)),
                reported@ == outcomes(start, txns).take(reported@.len() as int),
                self.ledger().ids() == old(self).ledger().ids(),
            decreases queue@.pending.len(),
        {
            let ghost done = reported@.len() as int;
            let received = queue.receive();
            self.accept(received);
            match self.complete() {
                Some(outcome) => {
                    reported.push(outcome);
                },
                None => {},
            }
            proof {
                assert(txns.take(done + 1).drop_last() =~= txns.take(done));
            }
        }
        let received = queue.receive();
        self.accept(received);
        proof {
            let done = reported@.len() as int;
            assert(txns.take(done) =~= txns);
            assert(queue@.pending =~= Seq::<Transaction>::empty());
        }
        reported
    }

    /// Whether the processor has terminated.
    fn is_terminated(&self) -> (terminated: bool)
        ensures
            terminated == (self.state() is Terminated),
    {
        match self.state {
            ProcessorState::Terminated => true,
            _ => false,
        }
    }
}

} // verus!
