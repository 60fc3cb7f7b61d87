//! What holds of every ledger, queue and processor, proved from the
//! definitions that the executable operations are stated with.

use vstd::prelude::*;
use crate::ledger::Ledger;
use crate::model::{
    answer, non_negative, outcome_of, outcomes, representable, run, step, Balances,
};
use crate::outcome::LedgerError;
use crate::processor::ProcessorState;
use crate::queue::{QueueState, Received};
use crate::transaction::Transaction;

verus! {

/// Delivering one more transaction after `txns` answers it on the balances
/// that `txns` left: the final balances are a left fold of `step`.
pub proof fn lemma_run_push(balances: Balances, txns: Seq<Transaction>, txn: Transaction)
    ensures
        run(balances, txns.push(txn)) == step(run(balances, txns), txn),
        outcomes(balances, txns.push(txn)) == outcomes(balances, txns).push(
            outcome_of(run(balances, txns), txn),
        ),
{
    let longer = txns.push(txn);
    assert forall|i: int| 0 <= i < txns.len() implies outcomes(balances, longer)[i] == outcomes(
        balances,
        txns,
    )[i] by {
        assert(longer.take(i) =~= txns.take(i));
    }
    assert(longer.take(txns.len() as int) =~= txns);
    assert(outcomes(balances, longer) =~= outcomes(balances, txns).push(
        outcome_of(run(balances, txns), txn),
    ));
}

/// Delivering `first` and then `second` is delivering `second` on the
/// balances that `first` left.
pub proof fn lemma_run_concat(balances: Balances, first: Seq<Transaction>, second: Seq<Transaction>)
    ensures
        run(balances, first + second) == run(run(balances, first), second),
    decreases second.len(),
{
    if second.len() > 0 {
        lemma_run_concat(balances, first, second.drop_last());
        assert((first + second).drop_last() =~= first + second.drop_last());
    }
}

/// The final balances are reached by answering the first transaction on the
/// initial balances and the rest, in order, on what it left.
pub proof fn lemma_run_from_front(balances: Balances, txns: Seq<Transaction>)
    requires
        txns.len() > 0,
    ensures
        run(balances, txns) == run(step(balances, txns[0]), txns.skip(1)),
{
    let head = seq![txns[0]];
    assert(head + txns.skip(1) =~= txns);
    lemma_run_concat(balances, head, txns.skip(1));
    assert(run(balances, head.drop_last()) == balances);
}

/// Every delivered transaction yields exactly one outcome, at its own place
/// in the order of delivery, and that outcome is the ledger's answer on the
/// balances that the transactions before it left.
pub proof fn lemma_one_outcome_each(balances: Balances, txns: Seq<Transaction>, i: int)
    requires
        0 <= i < txns.len(),
    ensures
        outcomes(balances, txns).len() == txns.len(),
        outcomes(balances, txns)[i] == outcome_of(run(balances, txns.take(i)), txns[i]),
{
}

/// A transfer is atomic: either it is applied, and then the debited account
/// has lost exactly what the credited account has gained and no other
/// balance has changed, or it is refused, and then no balance has changed
/// at all. There is no third case in which one leg alone was applied.
pub proof fn lemma_transfer_atomic(balances: Balances, from_id: u32, to_id: u32, amount: u64)
    ensures
        ({
            let txn = Transaction::Transfer { from_id, to_id, amount };
            let after = step(balances, txn);
            if answer(balances, txn) is Ok {
                &&& from_id != to_id
                &&& after.dom() == balances.dom()
                &&& after[from_id] == balances[from_id] - amount
                &&& after[to_id] == balances[to_id] + amount
                &&& forall|id: u32| id != from_id && id != to_id ==> after[id] == balances[id]
            } else {
                after == balances
            }
        }),
{
}

/// An applied transfer moves money and neither makes nor destroys it: the
/// two balances together are what they were.
pub proof fn lemma_transfer_conserves(balances: Balances, from_id: u32, to_id: u32, amount: u64)
    requires
        answer(balances, Transaction::Transfer { from_id, to_id, amount }) is Ok,
    ensures
        ({
            let after = step(balances, Transaction::Transfer { from_id, to_id, amount });
            after[from_id] + after[to_id] == balances[from_id] + balances[to_id]
        }),
{
}

/// A refused transaction, whatever the reason, leaves every balance exactly
/// as it was.
pub proof fn lemma_refusal_changes_nothing(balances: Balances, txn: Transaction)
    requires
        !(outcome_of(balances, txn) is Applied),
    ensures
        step(balances, txn) == balances,
{
}

/// A refused transaction does not stand in the way of those behind it: they
/// are answered as if it had never been delivered.
pub proof fn lemma_refused_is_skipped(
    balances: Balances,
    before: Seq<Transaction>,
    txn: Transaction,
    after: Seq<Transaction>,
)
    requires
        !(outcome_of(run(balances, before), txn) is Applied),
    ensures
        run(balances, before.push(txn) + after) == run(balances, before + after),
        outcomes(balances, before.push(txn) + after).len() == before.len() + 1 + after.len(),
{
    lemma_run_push(balances, before, txn);
    lemma_run_concat(balances, before.push(txn), after);
    lemma_run_concat(balances, before, after);
}

/// A malformed transaction is never applied: where its accounts exist, it
/// is refused as invalid. Conversely, only a malformed transaction is ever
/// refused as invalid.
pub proof fn lemma_invalid_means_malformed(balances: Balances, txn: Transaction)
    ensures
        !txn.is_well_formed() ==> answer(balances, txn) is Err && (answer(balances, txn)->Err_0
            is InvalidTransaction || answer(balances, txn)->Err_0 is AccountNotFound),
        answer(balances, txn) == Err::<(), LedgerError>(LedgerError::InvalidTransaction)
            ==> !txn.is_well_formed(),
{
}

/// No transaction makes or removes an account.
pub proof fn lemma_step_keeps_accounts(balances: Balances, txn: Transaction)
    ensures
        step(balances, txn).dom() == balances.dom(),
{
}

/// No sequence of transactions makes or removes an account.
pub proof fn lemma_run_keeps_accounts(balances: Balances, txns: Seq<Transaction>)
    ensures
        run(balances, txns).dom() == balances.dom(),
    decreases txns.len(),
{
    if txns.len() > 0 {
        lemma_run_keeps_accounts(balances, txns.drop_last());
        lemma_step_keeps_accounts(run(balances, txns.drop_last()), txns.last());
    }
}

/// If no account is overdrawn, none is after one more transaction.
pub proof fn lemma_step_non_negative(balances: Balances, txn: Transaction)
    requires
        non_negative(balances),
    ensures
        non_negative(step(balances, txn)),
{
}

/// If no account is overdrawn at the start, none is in any state that a
/// sequence of transactions can reach.
pub proof fn lemma_run_non_negative(balances: Balances, txns: Seq<Transaction>)
    requires
        non_negative(balances),
    ensures
        non_negative(run(balances, txns)),
    decreases txns.len(),
{
    if txns.len() > 0 {
        lemma_run_non_negative(balances, txns.drop_last());
        lemma_step_non_negative(run(balances, txns.drop_last()), txns.last());
    }
}

/// If every balance fits in a `u64`, every balance does after one more
/// transaction.
pub proof fn lemma_step_representable(balances: Balances, txn: Transaction)
    requires
        representable(balances),
    ensures
        representable(step(balances, txn)),
{
}

/// If every balance fits in a `u64` at the start, every balance does in any
/// state that a sequence of transactions can reach.
pub proof fn lemma_run_representable(balances: Balances, txns: Seq<Transaction>)
    requires
        representable(balances),
    ensures
        representable(run(balances, txns)),
    decreases txns.len(),
{
    if txns.len() > 0 {
        let before = run(balances, txns.drop_last());
        let txn = txns.last();
        lemma_run_representable(balances, txns.drop_last());
        lemma_step_representable(before, txn);
    }
}

/// The balances of a ledger are never negative and always fit in a `u64`.
pub proof fn lemma_ledger_representable(ledger: Ledger)
    ensures
        non_negative(ledger@),
        representable(ledger@),
{
}

/// Transactions that one producer enqueues one after the other are
/// delivered in that order, behind what was in transit before, and the
/// second is answered on the balances that the full effect of the first
/// left.
pub proof fn lemma_enqueue_order(
    balances: Balances,
    queue: QueueState,
    first: Transaction,
    second: Transaction,
)
    requires
        !queue.closed,
    ensures
        ({
            let filled = queue.enqueue(first).enqueue(second);
            let earlier = run(balances, queue.pending);
            let n = queue.pending.len() as int;
            &&& filled.pending == queue.pending.push(first).push(second)
            &&& ProcessorState::Idle.delivered(filled) == filled.pending
            &&& run(balances, filled.pending) == step(step(earlier, first), second)
            &&& outcomes(balances, filled.pending)[n] == outcome_of(earlier, first)
            &&& outcomes(balances, filled.pending)[n + 1] == outcome_of(step(earlier, first), second)
        }),
{
    lemma_run_push(balances, queue.pending, first);
    lemma_run_push(balances, queue.pending.push(first), second);
}

/// The queue hands transactions out first in, first out: the oldest one in
/// transit comes next, and the others keep their order.
pub proof fn lemma_receive_is_fifo(queue: QueueState)
    requires
        queue.pending.len() > 0,
    ensures
        queue.next() == Received::Item(queue.pending[0]),
        queue.after_receive().pending == queue.pending.skip(1),
        queue.after_receive().closed == queue.closed,
        forall|i: int|
            0 <= i < queue.pending.len() - 1 ==> #[trigger] queue.after_receive().pending[i]
                == queue.pending[i + 1],
{
}

/// Once the queue has reported that it is closed and drained, it reports so
/// for ever: nothing can be enqueued behind that report.
pub proof fn lemma_closed_is_final(queue: QueueState, txn: Transaction)
    requires
        queue.next() is Closed,
    ensures
        queue.after_receive() == queue,
        queue.enqueue(txn) == queue,
        queue.close() == queue,
{
}

/// After the queue has been closed, a processor that works through it
/// reports exactly one outcome for every transaction that was enqueued
/// before, in the order of enqueueing and behind the one that it may have
/// had in hand, leaves nothing in transit, and has terminated when it
/// returns. What is offered to the queue after the closing is not accepted
/// and changes none of this.
pub proof fn lemma_shutdown_drains(
    balances: Balances,
    state: ProcessorState,
    queue: QueueState,
    late: Transaction,
)
    requires
        !(state is Terminated),
    ensures
        ({
            let shut = queue.close();
            let delivered = state.delivered(shut);
            let in_hand: int = if state is Processing { 1 } else { 0 };
            &&& shut.enqueue(late) == shut
            &&& delivered.len() == in_hand + queue.pending.len()
            &&& outcomes(balances, delivered).len() == delivered.len()
            &&& forall|i: int|
                0 <= i < queue.pending.len() ==> {
                    &&& delivered[in_hand + i] == #[trigger] queue.pending[i]
                    &&& outcomes(balances, delivered)[in_hand + i] == outcome_of(
                        run(balances, delivered.take(in_hand + i)),
                        queue.pending[i],
                    )
                }
            &&& state.after_run(shut) is Terminated
            &&& state.queue_after_run(shut).pending.len() == 0
            &&& state.queue_after_run(shut).closed
        }),
{
}

} // verus!
