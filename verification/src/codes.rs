//! The fixed set of status codes returned across the foreign boundary.
//!
//! Every boundary operation reports exactly one of these codes.  Boundary and
//! input errors are detected synchronously, before any hand-off to the worker;
//! admission errors come from the bounded queue; domain errors are surfaced by
//! the ledger client as opaque failures and mapped to one of these codes with
//! no further detail.  The range `-100..=-199` is reserved for future
//! domain-specific codes and is not produced by anything in this crate.

use vstd::prelude::*;

verus! {

/// The operation completed successfully.
pub const CODE_OK: i32 = 0;

/// Invalid parameter: a null pointer, malformed input, or a caller-supplied
/// buffer too small for the result.
pub const CODE_INVALID_PARAM: i32 = -1;

/// The handle is invalid or already closed.
pub const CODE_INVALID_HANDLE: i32 = -2;

/// An account or key operation failed; also covers a malformed account id.
pub const CODE_ACCOUNT_FAILED: i32 = -3;

/// A note operation failed, or a note id was invalid (an empty or unparsable
/// note-id list is rejected with this code).
pub const CODE_NOTE_FAILED: i32 = -4;

/// A lookup against the ledger failed (state sync, balance or account fetch).
pub const CODE_LOOKUP_FAILED: i32 = -5;

/// A transaction submission failed.
pub const CODE_TX_FAILED: i32 = -6;

/// The bounded request queue was at capacity; the request was not admitted.
pub const CODE_QUEUE_FULL: i32 = -8;

/// A blocking wait was abandoned after its timeout; the underlying operation
/// may still run to completion inside the worker.
pub const CODE_TIMED_OUT: i32 = -99;

} // verus!
