//! Core of a foreign-function bridge around a stateful ledger client.
//!
//! A single remote-ledger client owns network connections, a local store and a
//! key store, and is not safe to touch from more than one thread.  This crate
//! holds the verified heart of the bridge that exposes such a client to
//! foreign callers: the status-code taxonomy, the bounded request queue, the
//! handle table and its lifecycle, the request/response model with the actor's
//! sequential drain loop, boundary validation and parsing, payload formatting,
//! and the memory-handoff protocol for buffers that cross the boundary.
//!
//! Everything that must run on real threads, real channels and the real ledger
//! client library stays outside this crate; it hands plain values in and takes
//! plain values back, so every decision the bridge makes is verified here.

pub mod actor;
pub mod bridge;
pub mod codes;
pub mod digest;
pub mod format;
pub mod handoff;
pub mod hexfmt;
pub mod ids;
pub mod lifecycle;
pub mod outcome;
pub mod parse;
pub mod queue;
pub mod request;
pub mod surface;
pub mod utf8;
pub mod views;
