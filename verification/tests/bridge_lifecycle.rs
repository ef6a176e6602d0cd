use miden_bridge::bridge::HandleTable;
use miden_bridge::lifecycle::{lifecycle_step, HandleState, LifecycleEvent};
use miden_bridge::queue::{BoundedQueue, EnqueueResult};
use miden_bridge::request::{Completion, Operation, Request};
use miden_bridge::surface::finish_create;

fn work() -> Request {
    Request::Work { op: Operation::Sync, completion: Completion::Blocking { ticket: 1 } }
}

#[test]
fn enqueue_at_capacity_fails_fast() {
    let mut q: BoundedQueue<u32> = BoundedQueue::new(2);
    assert_eq!(q.try_enqueue(10), EnqueueResult::Accepted);
    assert_eq!(q.try_enqueue(20), EnqueueResult::Accepted);
    // At capacity: the call reports Full immediately instead of waiting.
    assert_eq!(q.try_enqueue(30), EnqueueResult::Full);
    assert_eq!(q.len(), 2);
}

#[test]
fn enqueue_on_closed_queue_reports_closed() {
    let mut q: BoundedQueue<u32> = BoundedQueue::new(4);
    assert_eq!(q.try_enqueue(1), EnqueueResult::Accepted);
    q.close();
    assert_eq!(q.try_enqueue(2), EnqueueResult::Closed);
    // Pending items still drain after close.
    assert_eq!(q.dequeue(), Some(1));
    assert_eq!(q.dequeue(), None);
}

#[test]
fn queue_is_first_in_first_out() {
    let mut q: BoundedQueue<u32> = BoundedQueue::new(8);
    for x in [3, 1, 4, 1, 5] {
        assert_eq!(q.try_enqueue(x), EnqueueResult::Accepted);
    }
    let mut drained = Vec::new();
    while let Some(x) = q.dequeue() {
        drained.push(x);
    }
    assert_eq!(drained, vec![3, 1, 4, 1, 5]);
}

#[test]
fn overload_of_300_against_capacity_256() {
    let mut q: BoundedQueue<u32> = BoundedQueue::new(256);
    let mut failures = 0;
    for x in 0..300u32 {
        if q.try_enqueue(x) == EnqueueResult::Full {
            failures += 1;
        }
    }
    assert_eq!(failures, 44);
    assert!(failures >= 44);
}

#[test]
fn create_success_yields_live_handle() {
    let mut table = HandleTable::new();
    let (code, handle) = finish_create(&mut table, true);
    assert_eq!(code, 0);
    let h = handle.expect("success must yield a handle");
    assert!(table.is_live(h));
    assert_eq!(table.submit(h, work()), 0);
}

#[test]
fn create_failure_yields_no_handle() {
    let mut table = HandleTable::new();
    let (code, handle) = finish_create(&mut table, false);
    assert_eq!(code, -3);
    assert!(handle.is_none());
    assert_eq!(table.slot_count(), 0);
}

#[test]
fn destroyed_handle_rejects_operations() {
    let mut table = HandleTable::new();
    let (_, handle) = finish_create(&mut table, true);
    let h = handle.unwrap();
    assert!(table.destroy(h).is_some());
    // Any later operation on the same handle gets the invalid-handle code.
    assert_eq!(table.submit(h, work()), -2);
    assert!(!table.is_live(h));
}

#[test]
fn destroy_twice_is_a_no_op() {
    let mut table = HandleTable::new();
    let (_, handle) = finish_create(&mut table, true);
    let h = handle.unwrap();
    assert!(table.destroy(h).is_some());
    assert!(table.destroy(h).is_none());
    assert!(table.destroy(h).is_none());
}

#[test]
fn destroy_hands_back_closed_queue_with_shutdown() {
    let mut table = HandleTable::new();
    let (_, handle) = finish_create(&mut table, true);
    let h = handle.unwrap();
    let mut q = table.destroy(h).unwrap();
    assert!(q.is_closed());
    match q.dequeue() {
        Some(Request::Shutdown) => {},
        other => panic!("expected the shutdown request, got {:?}", other),
    }
    assert_eq!(q.len(), 0);
}

#[test]
fn unknown_handle_is_invalid() {
    let mut table = HandleTable::new();
    assert_eq!(table.submit(7, work()), -2);
    assert!(table.destroy(7).is_none());
}

#[test]
fn submit_on_full_queue_returns_queue_full() {
    let mut table = HandleTable::new();
    let (_, handle) = finish_create(&mut table, true);
    let h = handle.unwrap();
    for _ in 0..256 {
        assert_eq!(table.submit(h, work()), 0);
    }
    assert_eq!(table.submit(h, work()), -8);
}

#[test]
fn lifecycle_follows_the_state_machine() {
    assert_eq!(
        lifecycle_step(HandleState::Uninitialized, LifecycleEvent::BeginCreate),
        Some(HandleState::Initializing)
    );
    assert_eq!(
        lifecycle_step(HandleState::Initializing, LifecycleEvent::InitSucceeded),
        Some(HandleState::Ready)
    );
    assert_eq!(
        lifecycle_step(HandleState::Initializing, LifecycleEvent::InitFailed),
        Some(HandleState::Destroyed)
    );
    assert_eq!(
        lifecycle_step(HandleState::Ready, LifecycleEvent::BeginDestroy),
        Some(HandleState::Draining)
    );
    assert_eq!(
        lifecycle_step(HandleState::Draining, LifecycleEvent::WorkerJoined),
        Some(HandleState::Destroyed)
    );
    // Destroyed is terminal, and nothing skips ahead.
    assert_eq!(lifecycle_step(HandleState::Destroyed, LifecycleEvent::BeginCreate), None);
    assert_eq!(lifecycle_step(HandleState::Destroyed, LifecycleEvent::InitSucceeded), None);
    assert_eq!(lifecycle_step(HandleState::Ready, LifecycleEvent::InitSucceeded), None);
    assert_eq!(lifecycle_step(HandleState::Uninitialized, LifecycleEvent::BeginDestroy), None);
}
