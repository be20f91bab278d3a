//! The dispatch queue: the bounded FIFO buffer that connects message
//! producers to the single sink worker that drains it.
//!
//! The queue itself decides only acceptance and order. Blocking a producer
//! while the queue is full, and waking it when the worker frees a slot, is
//! the embedding's affair: an enqueue that returns the message back is the
//! would-block signal.

use vstd::prelude::*;

use crate::protocol::Message;
use crate::protocol::MessageV;

verus! {

/// A bounded FIFO queue of log messages.
pub struct DispatchQueue {
    items: Vec<Message>,
    capacity: usize,
}

/// True when a queue holding `q` with capacity `cap` has room for one more
/// message; enqueueing on a queue without room blocks the producer.
pub open spec fn spec_can_accept(q: Seq<MessageV>, cap: nat) -> bool {
    q.len() < cap
}

/// What a dequeue yields and leaves: the head of the queue and its tail,
/// or nothing and the queue unchanged when it is empty.
pub open spec fn spec_dequeue(q: Seq<MessageV>) -> (Option<MessageV>, Seq<MessageV>) {
    if q.len() == 0 {
        (None, q)
    } else {
        (Some(q[0]), q.drop_first())
    }
}

/// Queue contents after enqueueing one message: appended at the tail.
pub open spec fn spec_enqueue(q: Seq<MessageV>, m: MessageV) -> Seq<MessageV> {
    q.push(m)
}

/// Queue contents after enqueueing `ms` in sequence.
pub open spec fn spec_enqueue_all(q: Seq<MessageV>, ms: Seq<MessageV>) -> Seq<MessageV>
    decreases ms.len(),
{
    if ms.len() == 0 {
        q
    } else {
        spec_enqueue_all(spec_enqueue(q, ms[0]), ms.drop_first())
    }
}

/// The sequence that repeated dequeueing yields until the queue is empty.
pub open spec fn spec_drain(q: Seq<MessageV>) -> Seq<MessageV>
    decreases q.len(),
{
    if q.len() == 0 {
        Seq::empty()
    } else {
        seq![q[0]] + spec_drain(q.drop_first())
    }
}

/// Enqueueing messages in sequence appends them in that sequence.
pub proof fn lemma_enqueue_all_appends(q: Seq<MessageV>, ms: Seq<MessageV>)
    ensures
        spec_enqueue_all(q, ms) == q + ms,
    decreases ms.len(),
{
    if ms.len() == 0 {
        assert(spec_enqueue_all(q, ms) =~= q + ms);
    } else {
        lemma_enqueue_all_appends(spec_enqueue(q, ms[0]), ms.drop_first());
        assert(spec_enqueue(q, ms[0]) + ms.drop_first() =~= q + ms);
    }
}

/// Draining a queue yields exactly its contents, head first.
pub proof fn lemma_drain_yields_contents(q: Seq<MessageV>)
    ensures
        spec_drain(q) == q,
    decreases q.len(),
{
    if q.len() == 0 {
        assert(spec_drain(q) =~= q);
    } else {
        lemma_drain_yields_contents(q.drop_first());
        assert(seq![q[0]] + q.drop_first() =~= q);
    }
}

/// Ordering: messages enqueued in sequence by a producer are dequeued by
/// the worker in the same sequence — starting from an empty queue, the
/// drain of the queue after enqueueing `ms` is `ms` itself.
pub proof fn lemma_fifo_order(ms: Seq<MessageV>)
    ensures
        spec_drain(spec_enqueue_all(Seq::empty(), ms)) == ms,
{
    lemma_enqueue_all_appends(Seq::empty(), ms);
    assert(Seq::empty() + ms =~= ms);
    lemma_drain_yields_contents(ms);
}

/// Backpressure: a queue filled to its capacity accepts no further
/// message, and dequeueing a single message both yields the head and makes
/// room for exactly the enqueue that was blocked.
pub proof fn lemma_backpressure(q: Seq<MessageV>, cap: nat)
    requires
        q.len() == cap,
        cap >= 1,
    ensures
        !spec_can_accept(q, cap),
        spec_dequeue(q).0 == Some(q[0]),
        spec_can_accept(spec_dequeue(q).1, cap),
{
}

impl View for DispatchQueue {
    type V = Seq<MessageV>;

    closed spec fn view(&self) -> Seq<MessageV> {
        self.items@.map(|i: int, m: Message| m@)
    }
}

impl DispatchQueue {
    /// The fixed number of slots, chosen at construction.
    pub closed spec fn spec_capacity(&self) -> nat {
        self.capacity as nat
    }

    /// The queue never holds more messages than its capacity.
    pub open spec fn wf(&self) -> bool {
        self@.len() <= self.spec_capacity() && self.spec_capacity() >= 1
    }

    /// Create an empty queue with the given number of slots.
    pub fn new(capacity: usize) -> (q: DispatchQueue)
        requires
            capacity >= 1,
        ensures
            q.wf(),
            q@ == Seq::<MessageV>::empty(),
            q.spec_capacity() == capacity,
    {
        let q = DispatchQueue { items: Vec::new(), capacity };
        proof {
            assert(q@ =~= Seq::<MessageV>::empty());
        }
        q
    }

    /// The fixed number of slots.
    pub fn capacity(&self) -> (r: usize)
        ensures
            r == self.spec_capacity(),
    {
        self.capacity
    }

    /// How many messages wait in the queue.
    pub fn len(&self) -> (r: usize)
        ensures
            r == self@.len(),
    {
        self.items.len()
    }

    /// True when the queue holds no message.
    pub fn is_empty(&self) -> (r: bool)
        ensures
            r == (self@.len() == 0),
    {
        self.items.len() == 0
    }

    /// True when no further message can be accepted.
    pub fn is_full(&self) -> (r: bool)
        ensures
            r == !spec_can_accept(self@, self.spec_capacity()),
    {
        self.items.len() >= self.capacity
    }

    /// Enqueue a message at the tail. With a free slot the message is
    /// appended; with the queue full it is returned to the caller, which
    /// is the would-block signal of the flow control.
    pub fn enqueue(&mut self, m: Message) -> (r: Result<(), Message>)
        requires
            old(self).wf(),
        ensures
            final(self).wf(),
            final(self).spec_capacity() == old(self).spec_capacity(),
            spec_can_accept(old(self)@, old(self).spec_capacity()) ==> (r is Ok && final(self)@
                == spec_enqueue(old(self)@, m@)),
            !spec_can_accept(old(self)@, old(self).spec_capacity()) ==> (r matches Err(back)
                && back@ == m@ && final(self)@ == old(self)@),
    {
        if self.items.len() < self.capacity {
            self.items.push(m);
            proof {
                assert(self@ =~= spec_enqueue(old(self)@, m@));
            }
            Ok(())
        } else {
            Err(m)
        }
    }

    /// Dequeue the message at the head, if any.
    pub fn dequeue(&mut self) -> (r: Option<Message>)
        requires
            old(self).wf(),
        ensures
            final(self).wf(),
            final(self).spec_capacity() == old(self).spec_capacity(),
            r matches Some(m) ==> (spec_dequeue(old(self)@).0 == Some(m@) && final(self)@
                == spec_dequeue(old(self)@).1),
            r is None ==> (old(self)@.len() == 0 && final(self)@ == old(self)@),
            r is Some <==> old(self)@.len() > 0,
    {
        if self.items.len() == 0 {
            None
        } else {
            let m = self.items.remove(0);
            proof {
                assert(self@ =~= spec_dequeue(old(self)@).1);
            }
            Some(m)
        }
    }
}

} // verus!
