//! The bounded request queue: admission control and backpressure.
//!
//! The queue has a fixed capacity chosen at construction.  Enqueue never
//! blocks the calling thread: it either admits the item immediately, reports
//! that the queue is at capacity, or reports that the receiving end has
//! closed.  The consumer drains items strictly in first-enqueued order.
//!
//! This type is the sequential model of the multi-producer, single-consumer
//! channel that carries requests to the worker; the contracts here are what
//! every admission decision of the bridge rests on.

use vstd::prelude::*;

verus! {

/// What became of an enqueue attempt.
#[derive(Clone, Copy, Debug, PartialEq, Eq, Structural)]
pub enum EnqueueResult {
    /// The item was admitted at the back of the queue.
    Accepted,
    /// The queue was at capacity; the item was not admitted.
    Full,
    /// The receiving end has closed; the item was not admitted.
    Closed,
}

/// The mathematical model of a queue: its pending items in order, its fixed
/// capacity, and whether the receiving end has closed.
pub struct QueueModel<T> {
    pub items: Seq<T>,
    pub cap: nat,
    pub closed: bool,
}

impl<T> QueueModel<T> {
    /// A queue never holds more than its capacity, and capacity is positive.
    pub open spec fn wf(self) -> bool {
        self.items.len() <= self.cap && 1 <= self.cap
    }

    /// The effect of one enqueue attempt: admitted at the back unless the
    /// queue is closed or at capacity, in which case nothing changes.
    pub open spec fn enqueue(self, x: T) -> (QueueModel<T>, EnqueueResult) {
        if self.closed {
            (self, EnqueueResult::Closed)
        } else if self.items.len() >= self.cap {
            (self, EnqueueResult::Full)
        } else {
            (QueueModel { items: self.items.push(x), ..self }, EnqueueResult::Accepted)
        }
    }

    /// The effect of one dequeue: the first item leaves, oldest first.
    pub open spec fn dequeue(self) -> (QueueModel<T>, Option<T>) {
        if self.items.len() == 0 {
            (self, None)
        } else {
            (QueueModel { items: self.items.drop_first(), ..self }, Some(self.items.first()))
        }
    }

    /// The effect of closing the receiving end: pending items stay drainable.
    pub open spec fn close(self) -> QueueModel<T> {
        QueueModel { closed: true, ..self }
    }
}

/// A bounded first-in-first-out queue that fails fast instead of blocking.
pub struct BoundedQueue<T> {
    items: Vec<T>,
    capacity: usize,
    closed: bool,
}

impl<T> View for BoundedQueue<T> {
    type V = QueueModel<T>;

    closed spec fn view(&self) -> QueueModel<T> {
        QueueModel { items: self.items@, cap: self.capacity as nat, closed: self.closed }
    }
}

impl<T> BoundedQueue<T> {
    /// An empty, open queue with the given capacity.
    pub fn new(capacity: usize) -> (q: BoundedQueue<T>)
        requires
            1 <= capacity,
        ensures
            q@.wf(),
            q@.items == Seq::<T>::empty(),
            q@.cap == capacity,
            !q@.closed,
    {
        BoundedQueue { items: Vec::new(), capacity, closed: false }
    }

    /// Attempt an immediate insert; never waits for room.  At capacity the
    /// call fails fast with `Full`; on a closed queue it fails with `Closed`;
    /// otherwise the item is admitted at the back.
    pub fn try_enqueue(&mut self, x: T) -> (r: EnqueueResult)
        requires
            old(self)@.wf(),
        ensures
            final(self)@.wf(),
            (final(self)@, r) == old(self)@.enqueue(x),
    {
        if self.closed {
            EnqueueResult::Closed
        } else if self.items.len() >= self.capacity {
            EnqueueResult::Full
        } else {
            self.items.push(x);
            EnqueueResult::Accepted
        }
    }

    /// Remove and return the oldest pending item, if any.  A closed queue
    /// still drains whatever was admitted before it closed.
    pub fn dequeue(&mut self) -> (r: Option<T>)
        requires
            old(self)@.wf(),
        ensures
            final(self)@.wf(),
            (final(self)@, r) == old(self)@.dequeue(),
    {
        if self.items.len() == 0 {
            None
        } else {
            let x = self.items.remove(0);
            Some(x)
        }
    }

    /// Close the receiving end: later enqueues fail with `Closed`.
    pub fn close(&mut self)
        requires
            old(self)@.wf(),
        ensures
            final(self)@.wf(),
            final(self)@ == old(self)@.close(),
    {
        self.closed = true;
    }

    /// How many items are pending.
    pub fn len(&self) -> (n: usize)
        ensures
            n == self@.items.len(),
    {
        self.items.len()
    }

    /// Whether the receiving end has closed.
    pub fn is_closed(&self) -> (b: bool)
        ensures
            b == self@.closed,
    {
        self.closed
    }

    /// The capacity the queue was made with.
    pub fn capacity(&self) -> (n: usize)
        ensures
            n == self@.cap,
    {
        self.capacity
    }
}

/// A queue at capacity rejects the item with the queue-full result and
/// stays exactly as it was; the enqueue is a plain decision, so the caller
/// is never made to wait for room.
pub proof fn lemma_full_queue_fails_fast<T>(q: QueueModel<T>, x: T)
    requires
        q.wf(),
        !q.closed,
        q.items.len() == q.cap,
    ensures
        q.enqueue(x) == (q, EnqueueResult::Full),
{
}

/// Admission keeps arrival order: items the queue admits come out in the
/// order they went in.  Two consecutive admitted items are dequeued in the
/// same order, whatever was pending before them.
pub proof fn lemma_fifo_order<T>(q: QueueModel<T>, a: T, b: T)
    requires
        q.wf(),
        !q.closed,
        q.items.len() + 2 <= q.cap,
    ensures
        ({
            let (q1, r1) = q.enqueue(a);
            let (q2, r2) = q1.enqueue(b);
            &&& r1 == EnqueueResult::Accepted
            &&& r2 == EnqueueResult::Accepted
            &&& forall|k: int|
                q.items.len() <= k < q2.items.len() ==> q2.items[k] == (if k == q.items.len() {
                    a
                } else {
                    b
                })
        }),
{
}

} // verus!
