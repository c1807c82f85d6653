use vstd::prelude::*;

use std::collections::VecDeque;
use std::sync::Arc;

use bitcoin::secp256k1::PublicKey;
use lightning::util::wakers::Notifier;

verus! {

#[verifier::external_type_specification]
#[verifier::external_body]
pub struct ExPublicKey(PublicKey);

#[verifier::external_type_specification]
#[verifier::external_body]
pub struct ExNotifier(Notifier);

/// Queue of messages awaiting delivery, each addressed to a peer by its node id.
///
/// Entries leave the queue in the order in which they came in. The queue holds a shared
/// handle to the notifier that wakes the processor draining it; the queue itself never
/// signals it. Whoever releases a guard signals the notifier once the lock around the
/// queue, if any, is dropped, and only when [`MessageQueueNotifierGuard::release`] says so.
pub struct MessageQueue<M> {
    queue: VecDeque<(PublicKey, M)>,
    pending_msgs_notifier: Arc<Notifier>,
    id: Ghost<int>,
}

impl<M> View for MessageQueue<M> {
    type V = Seq<(PublicKey, M)>;

    /// The pending entries, oldest first.
    closed spec fn view(&self) -> Seq<(PublicKey, M)> {
        self.queue@
    }
}

impl<M> MessageQueue<M> {
    /// The identity of this queue, fixed for its lifetime, that the guards it opens carry.
    pub closed spec fn id(&self) -> int {
        self.id@
    }

    /// The notifier that wakes the processor draining this queue.
    pub closed spec fn wakes(&self) -> Arc<Notifier> {
        self.pending_msgs_notifier
    }

    /// `after` is this queue once `batch` was released into it, and `notified` tells
    /// whether the notifier is to be signalled for it.
    pub open spec fn released(
        self,
        batch: Seq<(PublicKey, M)>,
        notified: bool,
        after: Self,
    ) -> bool {
        &&& notified == (batch.len() > 0)
        &&& after@ == self@ + batch
        &&& after.id() == self.id()
        &&& after.wakes() == self.wakes()
    }

    /// `after` is this queue once drained, and `msgs` what the drain returned.
    pub open spec fn drained(self, msgs: Seq<(PublicKey, M)>, after: Self) -> bool {
        &&& msgs == self@
        &&& after@ == Seq::<(PublicKey, M)>::empty()
        &&& after.id() == self.id()
        &&& after.wakes() == self.wakes()
    }

    /// Creates an empty queue whose processor is woken through `pending_msgs_notifier`.
    pub fn new(pending_msgs_notifier: Arc<Notifier>) -> (q: Self)
        ensures
            q@ == Seq::<(PublicKey, M)>::empty(),
            q.wakes() == pending_msgs_notifier,
    {
        let queue = VecDeque::new();
        MessageQueue { queue, pending_msgs_notifier, id: Ghost(arbitrary()) }
    }

    /// The notifier to signal when a release asks for it.
    pub fn pending_msgs_notifier(&self) -> (n: &Arc<Notifier>)
        ensures
            *n == self.wakes(),
    {
        &self.pending_msgs_notifier
    }

    /// Removes every pending entry and returns them in the order in which they were queued.
    pub fn get_and_clear_pending_msgs(&mut self) -> (msgs: Vec<(PublicKey, M)>)
        ensures
            old(self).drained(msgs@, *final(self)),
    {
        let ghost start = self.queue@;
        let mut msgs: Vec<(PublicKey, M)> = Vec::new();
        loop
            invariant
                msgs@ + self.queue@ == start,
                self.id == old(self).id,
                self.pending_msgs_notifier == old(self).pending_msgs_notifier,
            ensures
                msgs@ == start,
                self.queue@ == Seq::<(PublicKey, M)>::empty(),
                self.id == old(self).id,
                self.pending_msgs_notifier == old(self).pending_msgs_notifier,
            decreases self.queue@.len(),
        {
            match self.queue.pop_front() {
                Some(entry) => {
                    msgs.push(entry);
                    assert(msgs@ + self.queue@ =~= start);
                },
                None => {
                    assert(msgs@ =~= start);
                    break;
                },
            }
        }
        msgs
    }

    /// Opens a guard that buffers entries for this queue until it is released into it.
    ///
    /// This neither changes the queue nor signals anything.
    pub fn notifier(&self) -> (guard: MessageQueueNotifierGuard<M>)
        ensures
            guard@ == Seq::<(PublicKey, M)>::empty(),
            guard.owner() == Some(self.id()),
    {
        MessageQueueNotifierGuard { buffer: VecDeque::new(), owner: Ghost(Some(self.id@)) }
    }

    /// Moves every entry of `buffer` to the back of the queue, keeping their order.
    fn flush(&mut self, buffer: &mut VecDeque<(PublicKey, M)>)
        ensures
            final(self)@ == old(self)@ + old(buffer)@,
            final(buffer)@ == Seq::<(PublicKey, M)>::empty(),
            final(self).id() == old(self).id(),
            final(self).wakes() == old(self).wakes(),
    {
        self.queue.append(buffer);
    }
}

/// A batch of entries bound for a [`MessageQueue`], gathered without touching the queue.
///
/// The guard is used once: [`MessageQueueNotifierGuard::release`] consumes it, hands its
/// entries to the queue in the order in which they were enqueued, and says whether the
/// queue's notifier is to be signalled, which is so exactly when there were entries.
/// Since `release` takes the guard by value, a guard cannot be released twice.
///
/// A guard opened by [`MessageQueue::notifier`] can be released only into that queue. A
/// guard made by [`MessageQueueNotifierGuard::new`] is bound to no queue; its owner keeps
/// track of where it belongs.
///
/// Dropping a guard without releasing it loses its entries. Where every exit path of a
/// scope must hand them over, hold the guard in a type whose `Drop` releases it.
#[must_use]
pub struct MessageQueueNotifierGuard<M> {
    buffer: VecDeque<(PublicKey, M)>,
    owner: Ghost<Option<int>>,
}

impl<M> View for MessageQueueNotifierGuard<M> {
    type V = Seq<(PublicKey, M)>;

    /// The buffered entries, oldest first.
    closed spec fn view(&self) -> Seq<(PublicKey, M)> {
        self.buffer@
    }
}

impl<M> MessageQueueNotifierGuard<M> {
    /// The identity of the queue that opened this guard, if a queue did.
    pub closed spec fn owner(&self) -> Option<int> {
        self.owner@
    }

    /// Whether this guard may be released into the queue whose identity is `id`.
    pub open spec fn belongs_to(&self, id: int) -> bool {
        self.owner() == None::<int> || self.owner() == Some(id)
    }

    /// Makes an empty guard that is bound to no queue.
    pub fn new() -> (guard: Self)
        ensures
            guard@ == Seq::<(PublicKey, M)>::empty(),
            guard.owner() == None::<int>,
    {
        MessageQueueNotifierGuard { buffer: VecDeque::new(), owner: Ghost(None) }
    }

    /// Buffers `msg` for `counterparty_node_id` behind the entries already buffered.
    pub fn enqueue(&mut self, counterparty_node_id: &PublicKey, msg: M)
        ensures
            final(self)@ == old(self)@.push((*counterparty_node_id, msg)),
            final(self).owner() == old(self).owner(),
    {
        self.buffer.push_back((*counterparty_node_id, msg));
    }

    /// Whether nothing is buffered.
    pub fn is_empty(&self) -> (r: bool)
        ensures
            r == (self@.len() == 0),
    {
        self.buffer.len() == 0
    }

    /// Hands the buffered entries to `queue`.
    ///
    /// With no entries buffered this leaves the queue alone and returns `false`: nothing is
    /// to be signalled. Otherwise the entries go to the back of the queue in the order in
    /// which they were enqueued, and it returns `true`: the caller is to signal the
    /// queue's notifier once, after it has let go of the queue.
    pub fn release(self, queue: &mut MessageQueue<M>) -> (notified: bool)
        requires
            self.belongs_to(old(queue).id()),
        ensures
            old(queue).released(self@, notified, *final(queue)),
    {
        let mut buffer = self.buffer;
        if buffer.len() == 0 {
            assert(old(queue)@ + self@ =~= old(queue)@);
            false
        } else {
            queue.flush(&mut buffer);
            true
        }
    }
}

} // verus!
