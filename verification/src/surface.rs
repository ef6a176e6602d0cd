//! The dual-mode call surface: every boundary decision, as a verified
//! function.
//!
//! Each operation is exposed twice.  The blocking variant validates and
//! parses its inputs, enqueues a request carrying a one-shot response
//! ticket, and waits with a fixed timeout; `block_on` resolves how that wait
//! ended into the caller's response — a timeout abandons only the wait, the
//! operation may still run to completion inside the worker.  The
//! non-blocking variant validates synchronously, so parse errors are
//! reported before any thread hand-off, enqueues a request carrying a
//! callback context, and returns the started code at once.
//!
//! The `prepare_*` functions here are those synchronous validation steps;
//! every input error is decided before a request is built, and no raw
//! foreign pointer ever reaches a request.

use rand::RngCore;
use rand::SeedableRng;
use vstd::prelude::*;

use crate::bridge::{slot_live, table_wf, HandleTable};
use crate::codes::{CODE_ACCOUNT_FAILED, CODE_INVALID_HANDLE, CODE_INVALID_PARAM, CODE_NOTE_FAILED,
    CODE_OK, CODE_TIMED_OUT};
use crate::ids::{is_valid_account_id, valid_account_id};
use crate::parse::{parse_note_ids_json, spec_parse_note_ids};
use crate::queue::{BoundedQueue, QueueModel};
use crate::request::{Operation, PayloadModel, Request, Response, ResponseModel};
use crate::utf8::is_utf8;
use vstd::utf8::valid_utf8;

verus! {

/// The fixed capacity of each worker's request queue: large enough to
/// absorb bursts, small enough to bound a caller that outruns the worker.
pub const QUEUE_CAPACITY: usize = 256;

/// How long a blocking call waits for its response, in seconds.
pub const WAIT_TIMEOUT_SECS: u64 = 30;

/// The network a worker connects to.
#[derive(Clone, Copy, Debug, PartialEq, Eq, Structural)]
pub enum EndpointChoice {
    /// The well-known public test network.
    Testnet,
}

/// Resolve the caller's endpoint request.  A null or empty endpoint, and the
/// recognised alias, select the default public network; custom endpoints are
/// currently accepted but silently mapped to the same default — a known
/// limitation of the boundary, not a parsing feature.
pub fn resolve_endpoint(requested: Option<&[u8]>) -> (r: EndpointChoice)
    ensures
        r == EndpointChoice::Testnet,
{
    match requested {
        None => EndpointChoice::Testnet,
        Some(_) => EndpointChoice::Testnet,
    }
}

/// Everything a worker needs to start: the validated paths, the endpoint,
/// and the queue capacity.
#[derive(Clone, Debug)]
pub struct CreateConfig {
    pub keystore_path: Vec<u8>,
    pub store_path: Vec<u8>,
    pub endpoint: EndpointChoice,
    pub queue_capacity: usize,
}

/// Validate a creation request.  Both paths must be present and valid
/// UTF-8 — a null or malformed path is an invalid parameter, rejected here,
/// before any worker exists; the endpoint may be absent.
pub fn prepare_create(
    keystore_path: Option<&[u8]>,
    store_path: Option<&[u8]>,
    endpoint: Option<&[u8]>,
) -> (r: Result<CreateConfig, i32>)
    ensures
        r is Ok <==> (keystore_path matches Some(k) && valid_utf8(k@)) && (store_path matches Some(
            s,
        ) && valid_utf8(s@)),
        r matches Ok(c) ==> (keystore_path matches Some(k) && c.keystore_path@ == k@) && (
        store_path matches Some(s) && c.store_path@ == s@) && c.endpoint
            == EndpointChoice::Testnet && c.queue_capacity == QUEUE_CAPACITY,
        r matches Err(code) ==> code == CODE_INVALID_PARAM,
{
    match (keystore_path, store_path) {
        (Some(k), Some(s)) => {
            if !is_utf8(k) || !is_utf8(s) {
                return Err(CODE_INVALID_PARAM);
            }
            let endpoint = resolve_endpoint(endpoint);
            Ok(
                CreateConfig {
                    keystore_path: vstd::slice::slice_to_vec(k),
                    store_path: vstd::slice::slice_to_vec(s),
                    endpoint,
                    queue_capacity: QUEUE_CAPACITY,
                },
            )
        },
        _ => Err(CODE_INVALID_PARAM),
    }
}

/// Finish a creation once the worker reported its initialization result.
/// Success installs the worker's fresh queue and yields its handle; failure
/// yields the account-operation code and no handle — the worker terminated
/// without entering its loop, so there is nothing to install.
pub fn finish_create(table: &mut HandleTable, init_ok: bool) -> (r: (i32, Option<usize>))
    requires
        table_wf(old(table)@),
    ensures
        table_wf(final(table)@),
        init_ok ==> r.0 == CODE_OK && (r.1 matches Some(h) && h == old(table)@.len()
            && final(table)@ == old(table)@.push(
            Some(
                QueueModel::<Request> {
                    items: Seq::empty(),
                    cap: QUEUE_CAPACITY as nat,
                    closed: false,
                },
            ),
        ) && slot_live(final(table)@, h as int)),
        !init_ok ==> r.0 == CODE_ACCOUNT_FAILED && r.1 is None && final(table)@ == old(table)@,
{
    if init_ok {
        let q: BoundedQueue<Request> = BoundedQueue::new(QUEUE_CAPACITY);
        let h = table.install(q);
        (CODE_OK, Some(h))
    } else {
        (CODE_ACCOUNT_FAILED, None)
    }
}

/// Relies on rand's OS-seeded generator (`StdRng::try_from_os_rng`,
/// `RngCore::fill_bytes`): on success exactly 32 bytes are filled, and the
/// entropy failure is surfaced instead of aborting.  The byte values depend
/// on the operating system's entropy source, so nothing is stated of them.
#[verifier::external_body]
fn random_seed() -> (s: Option<Vec<u8>>)
    ensures
        s matches Some(v) ==> v@.len() == 32,
{
    let mut rng = match rand::rngs::StdRng::try_from_os_rng() {
        Ok(rng) => rng,
        Err(_) => return None,
    };
    let mut seed = [0u8; 32];
    rng.fill_bytes(&mut seed);
    Some(seed.to_vec())
}

/// Validate a create-wallet request.  A supplied seed must be exactly 32
/// bytes, anything else is an invalid parameter.  A missing seed is
/// generated from OS entropy; if the entropy source is unavailable, the
/// account-operation code is returned rather than a made-up seed.
pub fn prepare_create_wallet(seed: Option<&[u8]>) -> (r: Result<Operation, i32>)
    ensures
        seed matches Some(s) ==> (r is Ok <==> s@.len() == 32),
        r matches Ok(op) ==> (op matches Operation::CreateWallet { seed: v } && v@.len() == 32 && (
        seed matches Some(s) ==> v@ == s@)),
        r matches Err(code) ==> (seed is Some && code == CODE_INVALID_PARAM) || (seed is None
            && code == CODE_ACCOUNT_FAILED),
{
    match seed {
        None => match random_seed() {
            Some(generated) => Ok(Operation::CreateWallet { seed: generated }),
            None => Err(CODE_ACCOUNT_FAILED),
        },
        Some(s) => {
            if s.len() != 32 {
                Err(CODE_INVALID_PARAM)
            } else {
                Ok(Operation::CreateWallet { seed: vstd::slice::slice_to_vec(s) })
            }
        },
    }
}

/// Validate a get-balance request: the account id must fit the boundary
/// grammar, else the account-operation code.
pub fn prepare_get_balance(account_id: &[u8]) -> (r: Result<Operation, i32>)
    ensures
        r is Ok <==> valid_account_id(account_id@),
        r matches Ok(op) ==> op matches Operation::GetBalance { account_id: v } && v@
            == account_id@,
        r matches Err(code) ==> code == CODE_ACCOUNT_FAILED,
{
    if is_valid_account_id(account_id) {
        Ok(Operation::GetBalance { account_id: vstd::slice::slice_to_vec(account_id) })
    } else {
        Err(CODE_ACCOUNT_FAILED)
    }
}

/// Validate a get-input-notes request.  The account id is optional: absent
/// or empty means notes for all accounts; anything else must fit the
/// boundary grammar, else the account-operation code.
pub fn prepare_get_input_notes(account_id: Option<&[u8]>) -> (r: Result<Operation, i32>)
    ensures
        r is Ok <==> (account_id is None || (account_id matches Some(s) && (s@.len() == 0
            || valid_account_id(s@)))),
        r matches Ok(op) ==> (op matches Operation::GetInputNotes { account_id: v } && (
        match account_id {
            None => v is None,
            Some(s) => (s@.len() == 0 ==> v is None) && (s@.len() != 0 ==> (v matches Some(w) && w@
                == s@)),
        })),
        r matches Err(code) ==> code == CODE_ACCOUNT_FAILED,
{
    match account_id {
        None => Ok(Operation::GetInputNotes { account_id: None }),
        Some(s) => {
            if s.len() == 0 {
                Ok(Operation::GetInputNotes { account_id: None })
            } else if is_valid_account_id(s) {
                Ok(
                    Operation::GetInputNotes {
                        account_id: Some(vstd::slice::slice_to_vec(s)),
                    },
                )
            } else {
                Err(CODE_ACCOUNT_FAILED)
            }
        },
    }
}

/// Validate a consume-notes request: the account id must fit the boundary
/// grammar (else the account-operation code), and the note-id list must
/// parse to at least one note id (an empty or unparsable list is rejected
/// with the note-operation code).
pub fn prepare_consume_notes(account_id: &[u8], note_ids_json: &[u8]) -> (r: Result<
    Operation,
    i32,
>)
    ensures
        !valid_account_id(account_id@) ==> (r matches Err(code) && code == CODE_ACCOUNT_FAILED),
        valid_account_id(account_id@) && (spec_parse_note_ids(note_ids_json@) is None
            || spec_parse_note_ids(note_ids_json@)->Some_0.len() == 0) ==> (r matches Err(code)
            && code == CODE_NOTE_FAILED),
        valid_account_id(account_id@) && spec_parse_note_ids(note_ids_json@) is Some
            && spec_parse_note_ids(note_ids_json@)->Some_0.len() > 0 ==> (r matches Ok(op) && (
        op matches Operation::ConsumeNotes { account_id: a, note_ids: n } && a@ == account_id@
            && n.deep_view() == spec_parse_note_ids(note_ids_json@)->Some_0)),
{
    if !is_valid_account_id(account_id) {
        return Err(CODE_ACCOUNT_FAILED);
    }
    match parse_note_ids_json(note_ids_json) {
        None => Err(CODE_NOTE_FAILED),
        Some(ids) => {
            if ids.len() == 0 {
                Err(CODE_NOTE_FAILED)
            } else {
                Ok(
                    Operation::ConsumeNotes {
                        account_id: vstd::slice::slice_to_vec(account_id),
                        note_ids: ids,
                    },
                )
            }
        },
    }
}

/// How a blocking caller's wait on the one-shot response channel ended.
#[derive(Debug)]
pub enum WaitOutcome {
    /// The worker delivered the response before the timeout.
    Delivered { response: Response },
    /// The timeout elapsed first.  Only the wait is abandoned: the operation
    /// may still run to completion inside the worker, unobserved.
    TimedOut,
    /// The channel closed without a response: the worker shut down.
    ChannelClosed,
}

/// Resolve a blocking wait into the caller's response: the delivered
/// response as is, the timed-out code when the wait was abandoned, and the
/// invalid-handle code when the worker went away.
pub fn block_on(w: WaitOutcome) -> (r: Response)
    ensures
        w matches WaitOutcome::Delivered { response } ==> r == response,
        w is TimedOut ==> r@ == (ResponseModel {
            code: CODE_TIMED_OUT,
            payload: PayloadModel::Empty,
        }),
        w is ChannelClosed ==> r@ == (ResponseModel {
            code: CODE_INVALID_HANDLE,
            payload: PayloadModel::Empty,
        }),
{
    match w {
        WaitOutcome::Delivered { response } => response,
        WaitOutcome::TimedOut => Response {
            code: CODE_TIMED_OUT,
            payload: crate::request::Payload::Empty,
        },
        WaitOutcome::ChannelClosed => Response {
            code: CODE_INVALID_HANDLE,
            payload: crate::request::Payload::Empty,
        },
    }
}

} // verus!
