//! The handle table: the process-wide table of live workers.
//!
//! A handle given to a foreign caller is an index into this table.  A live
//! slot holds the sending side of one worker's request queue.  `destroy`
//! nulls the slot *first*, so a concurrent destroy is a no-op and a racing
//! operation sees an invalid handle rather than a half-torn-down one; only
//! then is a shutdown message enqueued best-effort and the queue closed, which
//! guarantees the worker stops even if the queue was full.

use vstd::prelude::*;

use crate::codes::{CODE_INVALID_HANDLE, CODE_OK, CODE_QUEUE_FULL};
use crate::queue::{BoundedQueue, EnqueueResult, QueueModel};
use crate::request::Request;

verus! {

/// The mathematical model of the handle table: one optional queue per slot.
pub type TableModel = Seq<Option<QueueModel<Request>>>;

/// Whether `h` names a live slot.
pub open spec fn slot_live(t: TableModel, h: int) -> bool {
    0 <= h < t.len() && t[h] is Some
}

/// Every live slot holds a well-formed queue.
pub open spec fn table_wf(t: TableModel) -> bool {
    forall|i: int| 0 <= i < t.len() && t[i] is Some ==> (#[trigger] t[i])->Some_0.wf()
}

/// The effect of submitting a request to handle `h`: the new table and the
/// status code handed to the caller.  A dead or out-of-range handle is
/// rejected with the invalid-handle code; a live one admits the request
/// unless its queue is full or closed.
pub open spec fn spec_submit(t: TableModel, h: int, r: Request) -> (TableModel, i32) {
    if !slot_live(t, h) {
        (t, CODE_INVALID_HANDLE)
    } else {
        let (q, res) = t[h]->Some_0.enqueue(r);
        match res {
            EnqueueResult::Accepted => (t.update(h, Some(q)), CODE_OK),
            EnqueueResult::Full => (t, CODE_QUEUE_FULL),
            EnqueueResult::Closed => (t, CODE_INVALID_HANDLE),
        }
    }
}

/// What a worker's queue looks like once its handle is destroyed: a shutdown
/// request enqueued if there was room (best effort), and the queue closed so
/// the worker stops even if the shutdown message could not be admitted.
pub open spec fn drained_queue(q: QueueModel<Request>) -> QueueModel<Request> {
    q.enqueue(Request::Shutdown).0.close()
}

/// The effect of destroying handle `h`: the slot is nulled if it was live,
/// and nothing changes otherwise, so a second destroy is a no-op.
pub open spec fn spec_destroy(t: TableModel, h: int) -> TableModel {
    if slot_live(t, h) {
        t.update(h, None)
    } else {
        t
    }
}

/// The process-wide table of live workers.
pub struct HandleTable {
    slots: Vec<Option<BoundedQueue<Request>>>,
}

impl View for HandleTable {
    type V = TableModel;

    closed spec fn view(&self) -> TableModel {
        self.slots@.map_values(
            |s: Option<BoundedQueue<Request>>|
                match s {
                    Some(q) => Some(q@),
                    None => None,
                },
        )
    }
}

impl HandleTable {
    /// An empty table: no live handles.
    pub fn new() -> (t: HandleTable)
        ensures
            t@ == Seq::<Option<QueueModel<Request>>>::empty(),
            table_wf(t@),
    {
        let t = HandleTable { slots: Vec::new() };
        proof {
            assert(t@ =~= Seq::<Option<QueueModel<Request>>>::empty());
        }
        t
    }

    /// Install a freshly created worker's queue; the returned handle is the
    /// new slot's index.
    pub fn install(&mut self, q: BoundedQueue<Request>) -> (h: usize)
        requires
            q@.wf(),
        ensures
            final(self)@ == old(self)@.push(Some(q@)),
            h == old(self)@.len(),
            slot_live(final(self)@, h as int),
            table_wf(old(self)@) ==> table_wf(final(self)@),
    {
        let h = self.slots.len();
        self.slots.push(Some(q));
        proof {
            assert(final(self)@ =~= old(self)@.push(Some(q@)));
        }
        h
    }

    /// Whether `h` currently names a live worker.
    pub fn is_live(&self, h: usize) -> (b: bool)
        ensures
            b == slot_live(self@, h as int),
    {
        h < self.slots.len() && self.slots[h].is_some()
    }

    /// Submit a request to the worker behind `h`.  Fails fast with the
    /// invalid-handle code on a dead handle or a closed queue, and with the
    /// queue-full code when the queue is at capacity; never blocks.
    pub fn submit(&mut self, h: usize, r: Request) -> (code: i32)
        requires
            table_wf(old(self)@),
        ensures
            table_wf(final(self)@),
            (final(self)@, code) == spec_submit(old(self)@, h as int, r),
    {
        if h >= self.slots.len() {
            return CODE_INVALID_HANDLE;
        }
        let slot = &mut self.slots[h];
        let taken = slot.take();
        match taken {
            None => {
                proof {
                    assert(self@ =~= old(self)@);
                }
                CODE_INVALID_HANDLE
            },
            Some(mut q) => {
                let res = q.try_enqueue(r);
                let slot = &mut self.slots[h];
                *slot = Some(q);
                proof {
                    if res == EnqueueResult::Accepted {
                        assert(self@ =~= old(self)@.update(
                            h as int,
                            Some(old(self)@[h as int]->Some_0.enqueue(r).0),
                        ));
                    } else {
                        assert(self@ =~= old(self)@);
                    }
                }
                match res {
                    EnqueueResult::Accepted => CODE_OK,
                    EnqueueResult::Full => CODE_QUEUE_FULL,
                    EnqueueResult::Closed => CODE_INVALID_HANDLE,
                }
            },
        }
    }

    /// Destroy handle `h`.  The slot is nulled before anything else, so a
    /// racing call sees an invalid handle and a second destroy is a no-op
    /// returning `None`.  On the first destroy the worker's queue is handed
    /// back with a best-effort shutdown message admitted and the queue
    /// closed, for the caller to drain and join.
    pub fn destroy(&mut self, h: usize) -> (taken: Option<BoundedQueue<Request>>)
        requires
            table_wf(old(self)@),
        ensures
            table_wf(final(self)@),
            final(self)@ == spec_destroy(old(self)@, h as int),
            taken is Some <==> slot_live(old(self)@, h as int),
            taken matches Some(q) ==> q@ == drained_queue(old(self)@[h as int]->Some_0) && q@.wf(),
    {
        if h >= self.slots.len() {
            return None;
        }
        let slot = &mut self.slots[h];
        let taken = slot.take();
        proof {
            if old(self)@[h as int] is Some {
                assert(self@ =~= old(self)@.update(h as int, None));
            } else {
                assert(self@ =~= old(self)@);
            }
        }
        match taken {
            None => None,
            Some(mut q) => {
                let _admitted = q.try_enqueue(Request::Shutdown);
                q.close();
                Some(q)
            },
        }
    }

    /// How many slots the table has ever allocated (live or destroyed).
    pub fn slot_count(&self) -> (n: usize)
        ensures
            n == self@.len(),
    {
        self.slots.len()
    }
}

/// Admission succeeds exactly when the handle is live and its queue is open
/// and below capacity; every other submission fails fast without changing
/// anything.
pub proof fn lemma_admission(t: TableModel, h: int, r: Request)
    ensures
        spec_submit(t, h, r).1 == CODE_OK <==> slot_live(t, h) && !t[h]->Some_0.closed
            && t[h]->Some_0.items.len() < t[h]->Some_0.cap,
        spec_submit(t, h, r).1 != CODE_OK ==> spec_submit(t, h, r).0 == t,
{
}

/// Destruction is idempotent: destroying a handle a second time changes
/// nothing, because the slot was already nulled by the first destroy.
pub proof fn lemma_destroy_idempotent(t: TableModel, h: int)
    ensures
        spec_destroy(spec_destroy(t, h), h) == spec_destroy(t, h),
{
    let t1 = spec_destroy(t, h);
    if slot_live(t, h) {
        assert(!slot_live(t1, h));
    }
}

/// A destroyed handle rejects every later operation: once `destroy` has run,
/// submitting any request on the same handle returns the invalid-handle code
/// and leaves the table unchanged.
pub proof fn lemma_operation_after_destroy_rejected(t: TableModel, h: int, r: Request)
    ensures
        spec_submit(spec_destroy(t, h), h, r) == (spec_destroy(t, h), CODE_INVALID_HANDLE),
{
    let t1 = spec_destroy(t, h);
    if slot_live(t, h) {
        assert(!slot_live(t1, h));
    }
}

} // verus!
