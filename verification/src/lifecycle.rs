//! The lifecycle of one handle, as a state machine.
//!
//! `Uninitialized → Initializing → Ready → Draining → Destroyed`, with one
//! shortcut: when the worker's asynchronous setup fails, the handle goes from
//! `Initializing` straight to `Destroyed` — there is no live worker to shut
//! down, creation surfaces an error code and produces no handle.  Destruction
//! begins by nulling the handle's slot (`Ready → Draining`), so a racing
//! operation sees an invalid handle rather than a half-torn-down one, and
//! completes when the worker thread is joined (`Draining → Destroyed`).

use vstd::prelude::*;

verus! {

/// Where one handle stands in its life.
#[derive(Clone, Copy, Debug, PartialEq, Eq, Structural)]
pub enum HandleState {
    /// No worker exists yet.
    Uninitialized,
    /// The worker thread is performing asynchronous setup; the creating call
    /// is blocked on the initialization channel.
    Initializing,
    /// The worker is serving requests; the handle is live.
    Ready,
    /// Destruction has begun: the slot is nulled and shutdown is signalled,
    /// but the worker has not been joined yet.
    Draining,
    /// The worker is gone; the handle can never be used again.
    Destroyed,
}

/// What happens to a handle.
#[derive(Clone, Copy, Debug, PartialEq, Eq, Structural)]
pub enum LifecycleEvent {
    /// Creation was requested; the worker thread is being spun up.
    BeginCreate,
    /// The worker reported successful setup on the initialization channel.
    InitSucceeded,
    /// The worker reported failed setup; it terminates without entering its
    /// loop.
    InitFailed,
    /// Destruction was requested; the slot is nulled and shutdown signalled.
    BeginDestroy,
    /// The worker thread was joined.
    WorkerJoined,
}

/// The legal transitions, and nothing else: `None` means the event is not
/// allowed in that state.
pub open spec fn spec_lifecycle_step(s: HandleState, e: LifecycleEvent) -> Option<HandleState> {
    match (s, e) {
        (HandleState::Uninitialized, LifecycleEvent::BeginCreate) => Some(
            HandleState::Initializing,
        ),
        (HandleState::Initializing, LifecycleEvent::InitSucceeded) => Some(HandleState::Ready),
        (HandleState::Initializing, LifecycleEvent::InitFailed) => Some(HandleState::Destroyed),
        (HandleState::Ready, LifecycleEvent::BeginDestroy) => Some(HandleState::Draining),
        (HandleState::Draining, LifecycleEvent::WorkerJoined) => Some(HandleState::Destroyed),
        _ => None,
    }
}

/// Advance a handle's state by one event; rejects anything the lifecycle
/// does not allow.
pub fn lifecycle_step(s: HandleState, e: LifecycleEvent) -> (r: Option<HandleState>)
    ensures
        r == spec_lifecycle_step(s, e),
{
    match (s, e) {
        (HandleState::Uninitialized, LifecycleEvent::BeginCreate) => Some(
            HandleState::Initializing,
        ),
        (HandleState::Initializing, LifecycleEvent::InitSucceeded) => Some(HandleState::Ready),
        (HandleState::Initializing, LifecycleEvent::InitFailed) => Some(HandleState::Destroyed),
        (HandleState::Ready, LifecycleEvent::BeginDestroy) => Some(HandleState::Draining),
        (HandleState::Draining, LifecycleEvent::WorkerJoined) => Some(HandleState::Destroyed),
        _ => None,
    }
}

/// `Destroyed` is terminal: no event leads anywhere from it.
pub proof fn lemma_destroyed_is_terminal(e: LifecycleEvent)
    ensures
        spec_lifecycle_step(HandleState::Destroyed, e) is None,
{
}

/// The lifecycle never moves backwards: every transition strictly advances
/// the creation-to-destruction order.
pub proof fn lemma_lifecycle_advances(s: HandleState, e: LifecycleEvent)
    ensures
        spec_lifecycle_step(s, e) matches Some(n) ==> lifecycle_rank(n) > lifecycle_rank(s),
{
}

/// A handle's position along its life, for stating that transitions only
/// move forward.
pub open spec fn lifecycle_rank(s: HandleState) -> int {
    match s {
        HandleState::Uninitialized => 0,
        HandleState::Initializing => 1,
        HandleState::Ready => 2,
        HandleState::Draining => 3,
        HandleState::Destroyed => 4,
    }
}

} // verus!
