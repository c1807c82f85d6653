//! Properties of the queue that span several calls, proved from the contracts of
//! [`MessageQueue`] and [`MessageQueueNotifierGuard`].

use vstd::prelude::*;
use vstd::multiset::Multiset;
use vstd::seq_lib::lemma_multiset_commutative;

use bitcoin::secp256k1::PublicKey;

use crate::queue::{MessageQueue, MessageQueueNotifierGuard};

verus! {

/// The number of entries in all of `batches` together.
pub open spec fn total_len<E>(batches: Seq<Seq<E>>) -> nat
    decreases batches.len(),
{
    if batches.len() == 0 {
        0
    } else {
        total_len(batches.drop_last()) + batches.last().len()
    }
}

/// The entries of all of `batches` together, counted with repetition.
pub open spec fn all_entries<E>(batches: Seq<Seq<E>>) -> Multiset<E>
    decreases batches.len(),
{
    if batches.len() == 0 {
        Multiset::empty()
    } else {
        all_entries(batches.drop_last()).add(batches.last().to_multiset())
    }
}

proof fn lemma_buffer_is_prefix<E>(calls: Seq<E>, buffers: Seq<Seq<E>>, i: int)
    requires
        buffers.len() == calls.len() + 1,
        buffers[0] == Seq::<E>::empty(),
        forall|j: int| 0 <= j < calls.len() ==> #[trigger] buffers[j + 1] == buffers[j].push(calls[j]),
        0 <= i <= calls.len(),
    ensures
        buffers[i] == calls.take(i),
    decreases i,
{
    if i == 0 {
        assert(calls.take(0) =~= Seq::<E>::empty());
    } else {
        lemma_buffer_is_prefix(calls, buffers, i - 1);
        assert(buffers[(i - 1) + 1] == buffers[i - 1].push(calls[i - 1]));
        assert(calls.take(i - 1).push(calls[i - 1]) =~= calls.take(i));
    }
}

/// The entries enqueued on one guard come out of the queue in the order of the `enqueue`
/// calls.
///
/// `buffers[i]` is the guard's buffer after the first `i` calls, `calls[i]` the entry that
/// call `i` enqueued. Released into a queue with nothing pending and drained once
/// afterwards, the guard yields exactly `calls`.
pub proof fn lemma_enqueue_order_kept<M>(
    calls: Seq<(PublicKey, M)>,
    buffers: Seq<Seq<(PublicKey, M)>>,
    before: MessageQueue<M>,
    notified: bool,
    filled: MessageQueue<M>,
    out: Seq<(PublicKey, M)>,
    after: MessageQueue<M>,
)
    requires
        buffers.len() == calls.len() + 1,
        buffers[0] == Seq::<(PublicKey, M)>::empty(),
        forall|j: int| 0 <= j < calls.len() ==> #[trigger] buffers[j + 1] == buffers[j].push(calls[j]),
        before@.len() == 0,
        before.released(buffers.last(), notified, filled),
        filled.drained(out, after),
    ensures
        out == calls,
{
    lemma_buffer_is_prefix(calls, buffers, calls.len() as int);
    assert(calls.take(calls.len() as int) =~= calls);
    assert(before@ + calls =~= calls);
}

proof fn lemma_releases_gather<M>(
    states: Seq<MessageQueue<M>>,
    batches: Seq<Seq<(PublicKey, M)>>,
    signals: Seq<bool>,
)
    requires
        states.len() == batches.len() + 1,
        signals.len() == batches.len(),
        states[0]@.len() == 0,
        forall|i: int|
            0 <= i < batches.len() ==> #[trigger] states[i].released(
                batches[i],
                signals[i],
                states[i + 1],
            ),
    ensures
        states.last()@.len() == total_len(batches),
        states.last()@.to_multiset() == all_entries(batches),
    decreases batches.len(),
{
    broadcast use vstd::seq_lib::group_to_multiset_ensures;

    let n = batches.len() as int;
    if n == 0 {
        assert(states[0]@ =~= Seq::<(PublicKey, M)>::empty());
        assert(states[0]@.to_multiset() =~= Multiset::<(PublicKey, M)>::empty());
    } else {
        let rest = states.drop_last();
        assert forall|i: int| 0 <= i < n - 1 implies #[trigger] rest[i].released(
            batches.drop_last()[i],
            signals.drop_last()[i],
            rest[i + 1],
        ) by {
            assert(states[i].released(batches[i], signals[i], states[i + 1]));
        }
        assert(states[n - 1].released(batches[n - 1], signals[n - 1], states[n - 1 + 1]));
        lemma_releases_gather(rest, batches.drop_last(), signals.drop_last());
        lemma_multiset_commutative(states[n - 1]@, batches[n - 1]);
    }
}

/// No entry is lost when several guards release into one queue, in whatever order the
/// releases run.
///
/// `batches[i]` is what the `i`-th release handed over, and `states[i]` the queue before
/// it. Starting from a queue with nothing pending, a drain after the last release
/// returns as many entries as all batches hold, and the same entries.
pub proof fn lemma_no_entry_lost<M>(
    states: Seq<MessageQueue<M>>,
    batches: Seq<Seq<(PublicKey, M)>>,
    signals: Seq<bool>,
    out: Seq<(PublicKey, M)>,
    after: MessageQueue<M>,
)
    requires
        states.len() == batches.len() + 1,
        signals.len() == batches.len(),
        states[0]@.len() == 0,
        forall|i: int|
            0 <= i < batches.len() ==> #[trigger] states[i].released(
                batches[i],
                signals[i],
                states[i + 1],
            ),
        states.last().drained(out, after),
    ensures
        out.len() == total_len(batches),
        out.to_multiset() == all_entries(batches),
{
    lemma_releases_gather(states, batches, signals);
}

/// Releasing a guard that holds nothing leaves the queue as it was and asks for no signal:
/// the next drain returns exactly what was pending before.
pub proof fn lemma_empty_release_is_noop<M>(
    guard: MessageQueueNotifierGuard<M>,
    before: MessageQueue<M>,
    notified: bool,
    filled: MessageQueue<M>,
    out: Seq<(PublicKey, M)>,
    after: MessageQueue<M>,
)
    requires
        guard@.len() == 0,
        before.released(guard@, notified, filled),
        filled.drained(out, after),
    ensures
        !notified,
        out == before@,
{
    assert(before@ + guard@ =~= before@);
}

/// A drain right after a drain returns nothing.
pub proof fn lemma_drain_twice<M>(
    start: MessageQueue<M>,
    first: Seq<(PublicKey, M)>,
    mid: MessageQueue<M>,
    second: Seq<(PublicKey, M)>,
    end: MessageQueue<M>,
)
    requires
        start.drained(first, mid),
        mid.drained(second, end),
    ensures
        first == start@,
        second == Seq::<(PublicKey, M)>::empty(),
        end@ == Seq::<(PublicKey, M)>::empty(),
{
}

/// Releasing a guard that holds at least one entry asks for one signal of the notifier,
/// however many entries it holds, and the release is a single step: one result for the
/// whole batch.
pub proof fn lemma_one_signal_per_release<M>(
    batch: Seq<(PublicKey, M)>,
    before: MessageQueue<M>,
    notified: bool,
    after: MessageQueue<M>,
)
    requires
        batch.len() > 0,
        before.released(batch, notified, after),
    ensures
        notified,
        after@ == before@ + batch,
{
}

} // verus!
