use std::collections::VecDeque;
use vstd::prelude::*;

verus! {

/// What became of a message offered to a [`DispatchQueue`].
#[derive(PartialEq, Eq, Structural, Clone, Copy, Debug)]
pub enum Enqueued {
    /// The message was queued for delivery.
    Accepted,
    /// The queue was full and the message was dropped.
    Dropped,
}

/// The queue after offering `m` to a queue `q` of capacity `cap`: `m` is added
/// at the back when there is room, else dropped.
pub open spec fn enqueue_spec<T>(q: Seq<T>, cap: nat, m: T) -> Seq<T> {
    if q.len() < cap {
        q.push(m)
    } else {
        q
    }
}

/// The queue after offering each of `ms` in turn.
pub open spec fn enqueue_all<T>(q: Seq<T>, cap: nat, ms: Seq<T>) -> Seq<T>
    decreases ms.len(),
{
    if ms.len() == 0 {
        q
    } else {
        enqueue_all(enqueue_spec(q, cap, ms[0]), cap, ms.drop_first())
    }
}

/// One operation on a dispatch queue: a producer offers a message, or the
/// consumer takes the next one.
pub enum QueueOp<T> {
    Enqueue(T),
    Dequeue,
}

/// The queue and the messages handed to the consumer, in order, after the
/// operations `ops` on a queue `q` of capacity `cap`.
pub open spec fn run_ops<T>(q: Seq<T>, cap: nat, ops: Seq<QueueOp<T>>) -> (Seq<T>, Seq<T>)
    decreases ops.len(),
{
    if ops.len() == 0 {
        (q, Seq::empty())
    } else {
        let (rest, delivered) = run_ops(q, cap, ops.drop_last());
        match ops.last() {
            QueueOp::Enqueue(m) => (enqueue_spec(rest, cap, m), delivered),
            QueueOp::Dequeue => if rest.len() == 0 {
                (rest, delivered)
            } else {
                (rest.drop_first(), delivered.push(rest[0]))
            },
        }
    }
}

/// The messages that `ops` offers, in order.
pub open spec fn offered<T>(ops: Seq<QueueOp<T>>) -> Seq<T>
    decreases ops.len(),
{
    if ops.len() == 0 {
        Seq::empty()
    } else {
        match ops.last() {
            QueueOp::Enqueue(m) => offered(ops.drop_last()).push(m),
            QueueOp::Dequeue => offered(ops.drop_last()),
        }
    }
}

/// No message of `ops` finds the queue full.
pub open spec fn never_full<T>(q: Seq<T>, cap: nat, ops: Seq<QueueOp<T>>) -> bool {
    forall|i: int|
        0 <= i < ops.len() && (#[trigger] ops[i]) is Enqueue ==> run_ops(q, cap, ops.take(i)).0.len()
            < cap
}

/// FIFO: while the queue never reaches its capacity, the consumer receives the
/// messages that were there and then every offered message, in the order they
/// were offered; what it has not received yet is still queued in that order.
pub proof fn lemma_fifo_delivery<T>(q: Seq<T>, cap: nat, ops: Seq<QueueOp<T>>)
    requires
        never_full(q, cap, ops),
    ensures
        run_ops(q, cap, ops).1 + run_ops(q, cap, ops).0 == q + offered(ops),
    decreases ops.len(),
{
    if ops.len() > 0 {
        let pre = ops.drop_last();
        assert forall|i: int| 0 <= i < pre.len() && (#[trigger] pre[i]) is Enqueue implies run_ops(
            q,
            cap,
            pre.take(i),
        ).0.len() < cap by {
            assert(pre.take(i) =~= ops.take(i));
            assert(ops[i] == pre[i]);
        }
        lemma_fifo_delivery(q, cap, pre);
        let (rest, delivered) = run_ops(q, cap, pre);
        match ops.last() {
            QueueOp::Enqueue(m) => {
                assert(ops.take(ops.len() - 1) =~= pre);
                assert(ops[ops.len() - 1] is Enqueue);
                assert(rest.len() < cap);
                assert(delivered + rest.push(m) =~= (delivered + rest).push(m));
                assert((q + offered(pre)).push(m) =~= q + offered(pre).push(m));
            },
            QueueOp::Dequeue => {
                if rest.len() > 0 {
                    assert(delivered.push(rest[0]) + rest.drop_first() =~= delivered + rest);
                }
            },
        }
    }
}

/// Backpressure: once the queue is full, every further message is dropped and
/// the queue stays as it was.
pub proof fn lemma_full_queue_drops<T>(q: Seq<T>, cap: nat, ms: Seq<T>)
    requires
        q.len() >= cap,
    ensures
        enqueue_all(q, cap, ms) == q,
    decreases ms.len(),
{
    if ms.len() > 0 {
        lemma_full_queue_drops(q, cap, ms.drop_first());
    }
}

/// A bounded first-in first-out queue between producers and one consumer.
/// Offering a message never waits: when the queue is full the newest message is
/// dropped.
pub struct DispatchQueue<T> {
    items: VecDeque<T>,
    capacity: usize,
}

impl<T> View for DispatchQueue<T> {
    type V = Seq<T>;

    closed spec fn view(&self) -> Seq<T> {
        self.items@
    }
}

impl<T> DispatchQueue<T> {
    /// The number of messages the queue can hold.
    pub closed spec fn spec_capacity(&self) -> nat {
        self.capacity as nat
    }

    /// The queue holds no more than its capacity.
    pub closed spec fn wf(&self) -> bool {
        self.items@.len() <= self.capacity
    }

    /// An empty queue that holds at most `capacity` messages.
    pub fn new(capacity: usize) -> (r: DispatchQueue<T>)
        ensures
            r.wf(),
            r@ == Seq::<T>::empty(),
            r.spec_capacity() == capacity,
    {
        DispatchQueue { items: VecDeque::new(), capacity }
    }

    /// The number of messages the queue can hold.
    pub fn capacity(&self) -> (r: usize)
        ensures
            r == self.spec_capacity(),
    {
        self.capacity
    }

    /// The number of queued messages.
    pub fn len(&self) -> (r: usize)
        ensures
            r == self@.len(),
    {
        self.items.len()
    }

    /// Whether no message is queued.
    pub fn is_empty(&self) -> (r: bool)
        ensures
            r == (self@.len() == 0),
    {
        self.items.len() == 0
    }

    /// Offers `message`: it is queued at the back when there is room, and
    /// dropped when the queue is full. Never waits.
    pub fn enqueue(&mut self, message: T) -> (r: Enqueued)
        requires
            old(self).wf(),
        ensures
            final(self).wf(),
            final(self).spec_capacity() == old(self).spec_capacity(),
            final(self)@ == enqueue_spec(old(self)@, old(self).spec_capacity(), message),
            r == (if old(self)@.len() < old(self).spec_capacity() {
                Enqueued::Accepted
            } else {
                Enqueued::Dropped
            }),
    {
        if self.items.len() < self.capacity {
            self.items.push_back(message);
            Enqueued::Accepted
        } else {
            Enqueued::Dropped
        }
    }

    /// Takes the oldest queued message, if any.
    pub fn dequeue(&mut self) -> (r: Option<T>)
        requires
            old(self).wf(),
        ensures
            final(self).wf(),
            final(self).spec_capacity() == old(self).spec_capacity(),
            old(self)@.len() == 0 ==> r is None && final(self)@ == old(self)@,
            old(self)@.len() > 0 ==> r == Some(old(self)@[0]) && final(self)@ == old(
                self,
            )@.drop_first(),
    {
        self.items.pop_front()
    }
}

} // verus!
