//! What the worker learned from the ledger client, as plain values.
//!
//! The ledger client itself is out of scope: the worker performs one
//! operation against it and reduces whatever came back to one of these
//! outcomes — domain values for success, and opaque failure tags for the
//! rest, since error causes are not part of the stable boundary contract.
//! The completion logic is then verified for every possible outcome.

use vstd::prelude::*;

verus! {

/// One asset held in an account's vault or carried by a note, as the bridge
/// reads it: a fungible amount under a faucet id, or a non-fungible asset
/// (only counted, never detailed).
#[derive(Clone, Debug)]
pub enum AssetView {
    Fungible { faucet_id: Vec<u8>, amount: u64 },
    NonFungible,
}

/// One consumable input note, as the bridge reads it.
#[derive(Clone, Debug)]
pub struct NoteView {
    /// The note id as a `0x`-prefixed hex string.
    pub note_id: Vec<u8>,
    /// The note's assets; only fungible ones appear in the payload.
    pub assets: Vec<AssetView>,
    /// Whether the note is authenticated.
    pub is_authenticated: bool,
}

/// How one operation against the ledger client ended.
#[derive(Clone, Debug)]
pub enum Outcome {
    /// State was synchronised; the chain tip is at this block.
    Synced { block_num: u32 },
    /// A wallet account was created under this `0x`-prefixed hex id.
    WalletCreated { account_id: Vec<u8> },
    /// The tracked accounts, as `0x`-prefixed hex ids.
    Accounts { ids: Vec<Vec<u8>> },
    /// The queried account exists and holds these assets.
    BalanceFound { assets: Vec<AssetView> },
    /// The queried account is not tracked by the client.
    AccountMissing,
    /// The consumable input notes.
    Notes { notes: Vec<NoteView> },
    /// A consuming transaction was submitted under this hex id.
    TxSubmitted { tx_id: Vec<u8> },
    /// Building the transaction request failed (a note-operation failure).
    BuildFailed,
    /// The operation failed in the ledger client; no further detail crosses
    /// the boundary.
    OperationFailed,
}

} // verus!
