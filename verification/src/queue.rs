//! The hand-off between producers and the processor.

use std::collections::VecDeque;
use vstd::prelude::*;
use crate::transaction::Transaction;

verus! {

/// What a queue holds: the transactions in transit, oldest first, and
/// whether the producer side has been closed.
pub struct QueueState {
    pub pending: Seq<Transaction>,
    pub closed: bool,
}

/// What the consumer gets when it asks the queue for the next transaction.
#[derive(Clone, Copy, Debug, PartialEq, Eq, Structural)]
pub enum Received {
    /// The oldest transaction in transit, which has left the queue.
    Item(Transaction),
    /// Nothing is in transit, but producers may still enqueue: the consumer
    /// has to wait.
    Empty,
    /// Nothing is in transit and nothing will arrive any more.
    Closed,
}

impl QueueState {
    /// An open queue with nothing in transit.
    pub open spec fn new() -> QueueState {
        QueueState { pending: Seq::empty(), closed: false }
    }

    /// The queue after a producer has offered `txn`: an open queue takes it
    /// behind everything already in transit, a closed queue does not take it.
    pub open spec fn enqueue(self, txn: Transaction) -> QueueState {
        if self.closed {
            self
        } else {
            QueueState { pending: self.pending.push(txn), closed: false }
        }
    }

    /// The queue after its producer side has been closed. What is in transit
    /// stays in transit.
    pub open spec fn close(self) -> QueueState {
        QueueState { pending: self.pending, closed: true }
    }

    /// What the consumer is handed next.
    pub open spec fn next(self) -> Received {
        if self.pending.len() > 0 {
            Received::Item(self.pending[0])
        } else if self.closed {
            Received::Closed
        } else {
            Received::Empty
        }
    }

    /// The queue after the consumer has been handed `self.next()`.
    pub open spec fn after_receive(self) -> QueueState {
        if self.pending.len() > 0 {
            QueueState { pending: self.pending.skip(1), closed: self.closed }
        } else {
            self
        }
    }
}

/// An unbounded first-in, first-out queue of transactions whose producer
/// side can be closed. It holds transit state only: the transactions that
/// were accepted and not yet handed to the consumer, in the order in which
/// they were accepted, and whether it is closed.
pub struct TransactionQueue {
    pending: VecDeque<Transaction>,
    closed: bool,
}

impl View for TransactionQueue {
    type V = QueueState;

    closed spec fn view(&self) -> QueueState {
        QueueState { pending: self.pending@, closed: self.closed }
    }
}

impl TransactionQueue {
    /// An open queue with nothing in transit.
    pub fn new() -> (queue: TransactionQueue)
        ensures
            queue@ == QueueState::new(),
    {
        TransactionQueue { pending: VecDeque::new(), closed: false }
    }

    /// Offers `txn` to the queue and says whether the queue accepted it.
    ///
    /// An open queue always accepts, and puts `txn` behind everything that
    /// it accepted before. A closed queue never accepts and stays as it is.
    pub fn enqueue(&mut self, txn: Transaction) -> (accepted: bool)
        ensures
            accepted == !old(self)@.closed,
            final(self)@ == old(self)@.enqueue(txn),
    {
        if self.closed {
            false
        } else {
            self.pending.push_back(txn);
            true
        }
    }

    /// Closes the producer side: nothing more will be accepted. What was
    /// accepted before stays in the queue for the consumer.
    pub fn close(&mut self)
        ensures
            final(self)@ == old(self)@.close(),
    {
        self.closed = true;
    }

    /// Hands out the oldest transaction in transit, if there is one. If
    /// there is none, says whether one may still arrive (`Empty`) or not
    /// (`Closed`).
    pub fn receive(&mut self) -> (received: Received)
        ensures
            received == old(self)@.next(),
            final(self)@ == old(self)@.after_receive(),
    {
        match self.pending.pop_front() {
            Some(txn) => Received::Item(txn),
            None => {
                if self.closed {
                    Received::Closed
                } else {
                    Received::Empty
                }
            },
        }
    }

    /// How many transactions are in transit.
    pub fn len(&self) -> (len: usize)
        ensures
            len == self@.pending.len(),
    {
        self.pending.len()
    }

    /// Whether the producer side has been closed.
    pub fn is_closed(&self) -> (closed: bool)
        ensures
            closed == self@.closed,
    {
        self.closed
    }
}

} // verus!
