//! The closed set of operation requests and their responses.
//!
//! A request carries operation-specific inputs that were already validated
//! and parsed at the boundary — never raw foreign pointers — together with
//! exactly one completion mechanism: a one-shot response ticket for blocking
//! calls, or an opaque callback context for non-blocking calls.  A dedicated
//! `Shutdown` request terminates the worker's loop.
//!
//! Account ids, note ids and transaction ids travel as their boundary form:
//! bytes of a `0x`-prefixed hex string (see `ids`).

use vstd::prelude::*;

verus! {

/// One ledger operation, with its inputs already validated at the boundary.
#[derive(Clone, Debug)]
pub enum Operation {
    /// Synchronise local state with the network; yields the latest block number.
    Sync,
    /// Probe the connection; same network path as a sync, yields no value.
    TestConnection,
    /// Create a new wallet account from a 32-byte seed; yields the account id.
    CreateWallet { seed: Vec<u8> },
    /// List all tracked accounts; yields a JSON array of hex ids.
    GetAccounts,
    /// Fetch one account's assets; yields a JSON balance document.
    GetBalance { account_id: Vec<u8> },
    /// List consumable input notes, for one account or for all; yields a JSON
    /// notes document.
    GetInputNotes { account_id: Option<Vec<u8>> },
    /// Build and submit a transaction consuming the given notes; yields the
    /// transaction id.
    ConsumeNotes { account_id: Vec<u8>, note_ids: Vec<Vec<u8>> },
}

/// How a finished operation reaches its caller.
#[derive(Clone, Copy, Debug, PartialEq, Eq, Structural)]
pub enum Completion {
    /// A blocking caller waits on a one-shot response channel known by this
    /// ticket; if it stopped waiting, the worker's send fails silently.
    Blocking { ticket: u64 },
    /// A non-blocking caller is notified later through its registered
    /// callback, identified by this opaque context value.
    Callback { context: u64 },
}

/// One message on the request queue.
#[derive(Clone, Debug)]
pub enum Request {
    /// Perform an operation and deliver its response.
    Work { op: Operation, completion: Completion },
    /// Terminate the worker's loop; carries no payload.
    Shutdown,
}

/// The value a finished operation hands back, before any buffer crosses the
/// boundary.
#[derive(Clone, Debug)]
pub enum Payload {
    /// The operation yields no value.
    Empty,
    /// The operation yields one scalar (a block number).
    Num { value: u32 },
    /// The operation yields a variable-length document or id.
    Bytes { data: Vec<u8> },
}

/// A status code together with the operation's payload.  Failures always
/// carry an empty payload.
#[derive(Clone, Debug)]
pub struct Response {
    pub code: i32,
    pub payload: Payload,
}

/// The mathematical model of a payload: bytes as a sequence.
pub enum PayloadModel {
    Empty,
    Num { value: u32 },
    Bytes { data: Seq<u8> },
}

/// The mathematical model of a response.
pub struct ResponseModel {
    pub code: i32,
    pub payload: PayloadModel,
}

impl View for Payload {
    type V = PayloadModel;

    open spec fn view(&self) -> PayloadModel {
        match self {
            Payload::Empty => PayloadModel::Empty,
            Payload::Num { value } => PayloadModel::Num { value: *value },
            Payload::Bytes { data } => PayloadModel::Bytes { data: data@ },
        }
    }
}

impl View for Response {
    type V = ResponseModel;

    open spec fn view(&self) -> ResponseModel {
        ResponseModel { code: self.code, payload: self.payload@ }
    }
}

} // verus!
