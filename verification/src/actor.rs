//! The worker's sequential heart: one request at a time.
//!
//! The worker thread owns the ledger client exclusively and runs a loop that
//! drains the bounded queue, executing exactly one request to completion
//! before receiving the next.  The ledger work itself happens outside; what
//! it learned arrives here as an [`Outcome`], and `complete` turns it into
//! the response handed to the caller — domain failures become status codes,
//! successful values become formatted payloads.
//!
//! [`drain`] is the loop itself, over the sequential queue model: it
//! processes the work requests strictly in queue order, one outcome each,
//! stops at the first shutdown request, and threads every execution through
//! a non-reentrancy guard — the proof that no two requests ever overlap.

use vstd::prelude::*;

use crate::codes::{CODE_ACCOUNT_FAILED, CODE_LOOKUP_FAILED, CODE_NOTE_FAILED, CODE_OK,
    CODE_TX_FAILED};
use crate::format::{accounts_json_bytes, accounts_json, balance_json_bytes, balance_json,
    notes_json_bytes, notes_json};
use crate::outcome::Outcome;
use crate::queue::BoundedQueue;
use crate::request::{Completion, Operation, Payload, PayloadModel, Request, Response,
    ResponseModel};

verus! {

/// The code an operation reports when the ledger client fails it (or when
/// the worker cannot make sense of what came back).
pub open spec fn op_failure_code(op: Operation) -> i32 {
    match op {
        Operation::Sync => CODE_LOOKUP_FAILED,
        Operation::TestConnection => CODE_LOOKUP_FAILED,
        Operation::CreateWallet { .. } => CODE_ACCOUNT_FAILED,
        Operation::GetAccounts => CODE_ACCOUNT_FAILED,
        Operation::GetBalance { .. } => CODE_LOOKUP_FAILED,
        Operation::GetInputNotes { .. } => CODE_NOTE_FAILED,
        Operation::ConsumeNotes { .. } => CODE_TX_FAILED,
    }
}

/// The response owed for one operation and one outcome: success carries the
/// operation's value (a block number, an id, or a formatted document);
/// anything else carries the operation's failure code and no payload.  A
/// missing account maps to the generic lookup-failure code, while a failed
/// transaction build keeps the note-operation code, apart from the
/// submission-failure code.
pub open spec fn spec_response(op: Operation, out: Outcome) -> ResponseModel {
    match (op, out) {
        (Operation::Sync, Outcome::Synced { block_num }) => ResponseModel {
            code: CODE_OK,
            payload: PayloadModel::Num { value: block_num },
        },
        (Operation::TestConnection, Outcome::Synced { .. }) => ResponseModel {
            code: CODE_OK,
            payload: PayloadModel::Empty,
        },
        (Operation::CreateWallet { .. }, Outcome::WalletCreated { account_id }) => ResponseModel {
            code: CODE_OK,
            payload: PayloadModel::Bytes { data: account_id@ },
        },
        (Operation::GetAccounts, Outcome::Accounts { ids }) => ResponseModel {
            code: CODE_OK,
            payload: PayloadModel::Bytes { data: accounts_json(ids@) },
        },
        (Operation::GetBalance { account_id }, Outcome::BalanceFound { assets }) => ResponseModel {
            code: CODE_OK,
            payload: PayloadModel::Bytes { data: balance_json(account_id@, assets@) },
        },
        (Operation::GetInputNotes { .. }, Outcome::Notes { notes }) => ResponseModel {
            code: CODE_OK,
            payload: PayloadModel::Bytes { data: notes_json(notes@) },
        },
        (Operation::ConsumeNotes { .. }, Outcome::TxSubmitted { tx_id }) => ResponseModel {
            code: CODE_OK,
            payload: PayloadModel::Bytes { data: tx_id@ },
        },
        (Operation::ConsumeNotes { .. }, Outcome::BuildFailed) => ResponseModel {
            code: CODE_NOTE_FAILED,
            payload: PayloadModel::Empty,
        },
        (other_op, _) => ResponseModel {
            code: op_failure_code(other_op),
            payload: PayloadModel::Empty,
        },
    }
}

/// A failure response for `op`: its failure code, no payload.
fn failure_response(op: &Operation) -> (r: Response)
    ensures
        r@ == (ResponseModel { code: op_failure_code(*op), payload: PayloadModel::Empty }),
{
    let code = match op {
        Operation::Sync => CODE_LOOKUP_FAILED,
        Operation::TestConnection => CODE_LOOKUP_FAILED,
        Operation::CreateWallet { .. } => CODE_ACCOUNT_FAILED,
        Operation::GetAccounts => CODE_ACCOUNT_FAILED,
        Operation::GetBalance { .. } => CODE_LOOKUP_FAILED,
        Operation::GetInputNotes { .. } => CODE_NOTE_FAILED,
        Operation::ConsumeNotes { .. } => CODE_TX_FAILED,
    };
    Response { code, payload: Payload::Empty }
}

/// Turn what the ledger client reported into the response owed to the
/// caller.  Every domain failure is converted to a status code here; no
/// fault crosses the boundary.
pub fn complete(op: &Operation, out: Outcome) -> (r: Response)
    ensures
        r@ == spec_response(*op, out),
{
    match out {
        Outcome::Synced { block_num } => {
            match op {
                Operation::Sync => Response {
                    code: CODE_OK,
                    payload: Payload::Num { value: block_num },
                },
                Operation::TestConnection => Response { code: CODE_OK, payload: Payload::Empty },
                _ => failure_response(op),
            }
        },
        Outcome::WalletCreated { account_id } => {
            match op {
                Operation::CreateWallet { .. } => Response {
                    code: CODE_OK,
                    payload: Payload::Bytes { data: account_id },
                },
                _ => failure_response(op),
            }
        },
        Outcome::Accounts { ids } => {
            match op {
                Operation::GetAccounts => Response {
                    code: CODE_OK,
                    payload: Payload::Bytes { data: accounts_json_bytes(&ids) },
                },
                _ => failure_response(op),
            }
        },
        Outcome::BalanceFound { assets } => {
            match op {
                Operation::GetBalance { account_id } => Response {
                    code: CODE_OK,
                    payload: Payload::Bytes {
                        data: balance_json_bytes(account_id.as_slice(), &assets),
                    },
                },
                _ => failure_response(op),
            }
        },
        Outcome::Notes { notes } => {
            match op {
                Operation::GetInputNotes { .. } => Response {
                    code: CODE_OK,
                    payload: Payload::Bytes { data: notes_json_bytes(&notes) },
                },
                _ => failure_response(op),
            }
        },
        Outcome::TxSubmitted { tx_id } => {
            match op {
                Operation::ConsumeNotes { .. } => Response {
                    code: CODE_OK,
                    payload: Payload::Bytes { data: tx_id },
                },
                _ => failure_response(op),
            }
        },
        Outcome::BuildFailed => {
            match op {
                Operation::ConsumeNotes { .. } => Response {
                    code: CODE_NOTE_FAILED,
                    payload: Payload::Empty,
                },
                _ => failure_response(op),
            }
        },
        Outcome::AccountMissing => failure_response(op),
        Outcome::OperationFailed => failure_response(op),
    }
}

/// The model of the fake client's non-reentrant guard: entering while busy
/// is a verification error, so verified code can never overlap two
/// executions.
pub struct ExclusionGuard {
    busy: bool,
}

impl ExclusionGuard {
    /// Whether an execution is in flight.
    pub closed spec fn is_busy(self) -> bool {
        self.busy
    }

    /// A quiescent guard.
    pub fn new() -> (g: ExclusionGuard)
        ensures
            !g.is_busy(),
    {
        ExclusionGuard { busy: false }
    }

    /// Begin one execution; only allowed when none is in flight.
    pub fn enter(&mut self)
        requires
            !old(self).is_busy(),
        ensures
            final(self).is_busy(),
    {
        self.busy = true;
    }

    /// Finish the execution in flight.
    pub fn exit(&mut self)
        requires
            old(self).is_busy(),
        ensures
            !final(self).is_busy(),
    {
        self.busy = false;
    }
}

/// The work requests pending ahead of the first shutdown, in queue order.
pub open spec fn work_items(items: Seq<Request>) -> Seq<(Operation, Completion)>
    decreases items.len(),
{
    if items.len() == 0 {
        Seq::empty()
    } else {
        match items[0] {
            Request::Shutdown => Seq::empty(),
            Request::Work { op, completion } => seq![(op, completion)] + work_items(
                items.drop_first(),
            ),
        }
    }
}

/// What stays in the queue once the loop stops: everything behind the first
/// shutdown request, or nothing if there is none.
pub open spec fn rest_after(items: Seq<Request>) -> Seq<Request>
    decreases items.len(),
{
    if items.len() == 0 {
        Seq::empty()
    } else {
        match items[0] {
            Request::Shutdown => items.drop_first(),
            Request::Work { .. } => rest_after(items.drop_first()),
        }
    }
}

/// The worker's loop over the sequential queue model.  Requests are
/// processed strictly in first-enqueued order, exactly one at a time — every
/// execution passes through a non-reentrant guard, so no two ever overlap —
/// and each work request before the first shutdown is answered by exactly
/// one response, computed by `complete` from the outcome the ledger client
/// gave for it.  The loop stops at the first shutdown request or when the
/// queue is empty.
#[verifier::rlimit(60)]
pub fn drain(q: &mut BoundedQueue<Request>, outcomes: Vec<Outcome>) -> (delivered: Vec<
    (Completion, Response),
>)
    requires
        old(q)@.wf(),
        outcomes@.len() == work_items(old(q)@.items).len(),
    ensures
        final(q)@.wf(),
        final(q)@.cap == old(q)@.cap,
        final(q)@.closed == old(q)@.closed,
        final(q)@.items == rest_after(old(q)@.items),
        delivered@.len() == work_items(old(q)@.items).len(),
        forall|i: int|
            0 <= i < delivered@.len() ==> (#[trigger] delivered@[i]).0 == work_items(
                old(q)@.items,
            )[i].1 && delivered@[i].1@ == spec_response(
                work_items(old(q)@.items)[i].0,
                outcomes@[i],
            ),
{
    let ghost w = work_items(old(q)@.items);
    let ghost outs0 = outcomes@;
    let mut rem = outcomes;
    let mut delivered: Vec<(Completion, Response)> = Vec::new();
    let mut guard = ExclusionGuard::new();
    proof {
        assert(outs0.skip(0) =~= outs0);
        assert(w.skip(0) =~= w);
    }
    loop
        invariant_except_break
            q@.wf(),
            q@.cap == old(q)@.cap,
            q@.closed == old(q)@.closed,
            outs0.len() == w.len(),
            delivered@.len() <= w.len(),
            rem@ == outs0.skip(delivered@.len() as int),
            work_items(q@.items) == w.skip(delivered@.len() as int),
            rest_after(q@.items) == rest_after(old(q)@.items),
            !guard.is_busy(),
            forall|i: int|
                0 <= i < delivered@.len() ==> (#[trigger] delivered@[i]).0 == w[i].1
                    && delivered@[i].1@ == spec_response(w[i].0, outs0[i]),
        ensures
            q@.wf(),
            q@.cap == old(q)@.cap,
            q@.closed == old(q)@.closed,
            q@.items == rest_after(old(q)@.items),
            delivered@.len() == w.len(),
            forall|i: int|
                0 <= i < delivered@.len() ==> (#[trigger] delivered@[i]).0 == w[i].1
                    && delivered@[i].1@ == spec_response(w[i].0, outs0[i]),
        decreases q@.items.len(),
    {
        let ghost items_before = q@.items;
        let next = q.dequeue();
        match next {
            None => {
                proof {
                    assert(items_before.len() == 0);
                    assert(w.skip(delivered@.len() as int).len() == 0);
                }
                break ;
            },
            Some(Request::Shutdown) => {
                proof {
                    assert(w.skip(delivered@.len() as int).len() == 0);
                    assert(rest_after(items_before) == items_before.drop_first());
                }
                break ;
            },
            Some(Request::Work { op, completion }) => {
                let ghost k = delivered@.len() as int;
                proof {
                    assert(items_before[0] == (Request::Work { op, completion }));
                    assert(work_items(items_before) == seq![(op, completion)] + work_items(
                        items_before.drop_first(),
                    ));
                    assert(w.skip(k)[0] == (op, completion));
                    assert(w[k] == (op, completion));
                    assert(w.skip(k).drop_first() =~= w.skip(k + 1));
                    assert(seq![(op, completion)] + work_items(items_before.drop_first())
                        =~= w.skip(k));
                    assert(work_items(items_before.drop_first()) =~= w.skip(k).drop_first());
                    assert(outs0.skip(k).drop_first() =~= outs0.skip(k + 1));
                    assert(rem@[0] == outs0[k]);
                }
                guard.enter();
                let out = rem.remove(0);
                let resp = complete(&op, out);
                guard.exit();
                delivered.push((completion, resp));
            },
        }
    }
    delivered
}

} // verus!
