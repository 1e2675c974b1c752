//! Bounded FIFO command queues.
//!
//! Each queue carries decoded actuator instructions from the session loop to
//! one actuator task. Capacity is fixed; a send that finds the queue full is
//! refused with the item handed back, so nothing is ever dropped: the caller
//! (the async runtime) suspends the producer and retries once the consumer
//! has removed an item (backpressure).

use vstd::prelude::*;

verus! {

/// Fixed capacity of every command queue.
pub const QUEUE_CAPACITY: usize = 20;

/// A bounded FIFO channel with a single logical producer and a single
/// logical consumer. The view is the sequence of pending items, oldest
/// first.
pub struct CommandQueue<T> {
    items: Vec<T>,
}

impl<T> View for CommandQueue<T> {
    type V = Seq<T>;

    closed spec fn view(&self) -> Seq<T> {
        self.items@
    }
}

impl<T> CommandQueue<T> {
    /// Well-formedness: a queue never holds more than `QUEUE_CAPACITY`
    /// items. Established by `new` and preserved by every operation.
    pub open spec fn inv(&self) -> bool {
        self@.len() <= QUEUE_CAPACITY
    }

    /// An empty queue.
    pub fn new() -> (q: CommandQueue<T>)
        ensures
            q@ == Seq::<T>::empty(),
            q.inv(),
    {
        CommandQueue { items: Vec::new() }
    }

    /// Number of pending items.
    pub fn len(&self) -> (n: usize)
        ensures
            n == self@.len(),
    {
        self.items.len()
    }

    /// Non-suspending send: appends the item at the back if there is room,
    /// otherwise refuses and hands the item back unchanged, so that the
    /// caller can suspend and retry. No item is ever dropped.
    pub fn try_send(&mut self, item: T) -> (r: Result<(), T>)
        requires
            old(self).inv(),
        ensures
            final(self).inv(),
            old(self)@.len() < QUEUE_CAPACITY ==> r is Ok && final(self)@ == old(self)@.push(item),
            old(self)@.len() >= QUEUE_CAPACITY ==> (r matches Err(back) && back == item
                && final(self)@ == old(self)@),
    {
        if self.items.len() < QUEUE_CAPACITY {
            self.items.push(item);
            Ok(())
        } else {
            Err(item)
        }
    }

    /// Backpressure send: the runtime suspends the producer while the queue
    /// is full, so by the time the send proceeds there is room; the item is
    /// appended at the back.
    pub fn send(&mut self, item: T)
        requires
            old(self).inv(),
            old(self)@.len() < QUEUE_CAPACITY,
        ensures
            final(self).inv(),
            final(self)@ == old(self)@.push(item),
    {
        self.items.push(item);
    }

    /// Receive the oldest pending item, or nothing when the queue is empty
    /// (the runtime then suspends the consumer until a send arrives).
    pub fn try_receive(&mut self) -> (r: Option<T>)
        requires
            old(self).inv(),
        ensures
            final(self).inv(),
            old(self)@.len() == 0 ==> r is None && final(self)@ == old(self)@,
            old(self)@.len() > 0 ==> (r matches Some(front) && front == old(self)@.first()
                && final(self)@ == old(self)@.drop_first()),
    {
        if self.items.len() == 0 {
            None
        } else {
            let item = self.items.remove(0);
            proof {
                assert(self.items@ =~= old(self)@.drop_first());
            }
            Some(item)
        }
    }
}

/// FIFO law: if the producer sends `c1` and then `c2` to the same queue,
/// then once the backlog that was already pending is drained, the consumer
/// receives `c1` strictly before `c2` (receives return the front of the
/// view, sends append at the back).
pub proof fn lemma_fifo_order<T>(pending: Seq<T>, c1: T, c2: T)
    ensures
        pending.push(c1).push(c2).skip(pending.len() as int) =~= seq![c1, c2],
{
}

/// Backpressure law: a send that finds the queue at capacity is refused
/// with the item intact, and after the consumer removes one element the
/// retried send has room and queues the item at the back.
pub proof fn lemma_backpressure<T>(pending: Seq<T>, item: T)
    requires
        pending.len() == QUEUE_CAPACITY,
    ensures
        !(pending.len() < QUEUE_CAPACITY),
        pending.drop_first().len() < QUEUE_CAPACITY,
        pending.drop_first().push(item).last() == item,
        pending.drop_first().push(item).len() <= QUEUE_CAPACITY,
{
}

} // verus!
