use miden_bridge::actor::{complete, drain, ExclusionGuard};
use miden_bridge::outcome::Outcome;
use miden_bridge::queue::{BoundedQueue, EnqueueResult};
use miden_bridge::request::{Completion, Operation, Payload, Request, Response};
use miden_bridge::surface::{block_on, prepare_consume_notes, prepare_create, prepare_create_wallet,
    prepare_get_balance, prepare_get_input_notes, WaitOutcome, QUEUE_CAPACITY};

const ACCOUNT: &str = "0xa1b2c3d4e5f60718293a4b5c6d7e8f";
const NOTE: &str = "0x0123456789abcdef0123456789abcdef0123456789abcdef0123456789abcdef";

fn code_of(r: &Response) -> i32 {
    r.code
}

fn bytes_of(r: Response) -> Vec<u8> {
    match r.payload {
        Payload::Bytes { data } => data,
        other => panic!("expected a bytes payload, got {:?}", other),
    }
}

#[test]
fn sync_success_reports_block_number() {
    let r = complete(&Operation::Sync, Outcome::Synced { block_num: 42 });
    assert_eq!(r.code, 0);
    match r.payload {
        Payload::Num { value } => assert_eq!(value, 42),
        other => panic!("expected a scalar payload, got {:?}", other),
    }
}

#[test]
fn domain_failures_map_to_fixed_codes() {
    let failed = Outcome::OperationFailed;
    assert_eq!(code_of(&complete(&Operation::Sync, failed.clone())), -5);
    assert_eq!(code_of(&complete(&Operation::TestConnection, failed.clone())), -5);
    assert_eq!(
        code_of(&complete(&Operation::CreateWallet { seed: vec![0; 32] }, failed.clone())),
        -3
    );
    assert_eq!(code_of(&complete(&Operation::GetAccounts, failed.clone())), -3);
    let balance = Operation::GetBalance { account_id: ACCOUNT.as_bytes().to_vec() };
    assert_eq!(code_of(&complete(&balance, failed.clone())), -5);
    assert_eq!(code_of(&complete(&balance, Outcome::AccountMissing)), -5);
    let notes = Operation::GetInputNotes { account_id: None };
    assert_eq!(code_of(&complete(&notes, failed.clone())), -4);
    let consume = Operation::ConsumeNotes {
        account_id: ACCOUNT.as_bytes().to_vec(),
        note_ids: vec![NOTE.as_bytes().to_vec()],
    };
    assert_eq!(code_of(&complete(&consume, Outcome::BuildFailed)), -4);
    assert_eq!(code_of(&complete(&consume, failed)), -6);
}

#[test]
fn fresh_client_lists_no_accounts() {
    let r = complete(&Operation::GetAccounts, Outcome::Accounts { ids: vec![] });
    assert_eq!(r.code, 0);
    assert_eq!(bytes_of(r), b"[]".to_vec());
}

#[test]
fn consume_success_returns_transaction_id() {
    let consume = Operation::ConsumeNotes {
        account_id: ACCOUNT.as_bytes().to_vec(),
        note_ids: vec![NOTE.as_bytes().to_vec()],
    };
    let r = complete(&consume, Outcome::TxSubmitted { tx_id: b"0x99".to_vec() });
    assert_eq!(r.code, 0);
    assert_eq!(bytes_of(r), b"0x99".to_vec());
}

#[test]
fn drain_processes_in_order_and_stops_at_shutdown() {
    let mut q: BoundedQueue<Request> = BoundedQueue::new(8);
    let w1 = Request::Work { op: Operation::Sync, completion: Completion::Blocking { ticket: 7 } };
    let w2 = Request::Work {
        op: Operation::GetAccounts,
        completion: Completion::Callback { context: 9 },
    };
    let after = Request::Work {
        op: Operation::TestConnection,
        completion: Completion::Blocking { ticket: 8 },
    };
    assert_eq!(q.try_enqueue(w1), EnqueueResult::Accepted);
    assert_eq!(q.try_enqueue(w2), EnqueueResult::Accepted);
    assert_eq!(q.try_enqueue(Request::Shutdown), EnqueueResult::Accepted);
    assert_eq!(q.try_enqueue(after), EnqueueResult::Accepted);

    let outcomes = vec![Outcome::Synced { block_num: 3 }, Outcome::Accounts { ids: vec![] }];
    let delivered = drain(&mut q, outcomes);

    assert_eq!(delivered.len(), 2);
    assert_eq!(delivered[0].0, Completion::Blocking { ticket: 7 });
    assert_eq!(delivered[0].1.code, 0);
    match delivered[0].1.payload {
        Payload::Num { value } => assert_eq!(value, 3),
        ref other => panic!("expected a scalar payload, got {:?}", other),
    }
    assert_eq!(delivered[1].0, Completion::Callback { context: 9 });
    assert_eq!(delivered[1].1.code, 0);
    // The request behind the shutdown is left unprocessed.
    assert_eq!(q.len(), 1);
}

#[test]
fn drain_of_empty_queue_delivers_nothing() {
    let mut q: BoundedQueue<Request> = BoundedQueue::new(4);
    let delivered = drain(&mut q, vec![]);
    assert!(delivered.is_empty());
}

#[test]
fn exclusion_guard_tracks_one_execution() {
    let mut g = ExclusionGuard::new();
    g.enter();
    g.exit();
    g.enter();
    g.exit();
}

#[test]
fn blocking_wait_outcomes() {
    let delivered = block_on(WaitOutcome::Delivered {
        response: Response { code: 0, payload: Payload::Num { value: 5 } },
    });
    assert_eq!(delivered.code, 0);
    let timed_out = block_on(WaitOutcome::TimedOut);
    assert_eq!(timed_out.code, -99);
    assert!(matches!(timed_out.payload, Payload::Empty));
    let closed = block_on(WaitOutcome::ChannelClosed);
    assert_eq!(closed.code, -2);
}

#[test]
fn create_validation() {
    let cfg = prepare_create(Some(b"/tmp/keys"), Some(b"/tmp/store.db"), None).unwrap();
    assert_eq!(cfg.keystore_path, b"/tmp/keys".to_vec());
    assert_eq!(cfg.store_path, b"/tmp/store.db".to_vec());
    assert_eq!(cfg.queue_capacity, QUEUE_CAPACITY);
    assert_eq!(prepare_create(None, Some(b"x"), None).unwrap_err(), -1);
    assert_eq!(prepare_create(Some(b"x"), None, None).unwrap_err(), -1);
    // Malformed UTF-8 in either path is a boundary error, rejected before
    // any worker is involved.
    assert_eq!(prepare_create(Some(&[0xff, 0xfe]), Some(b"x"), None).unwrap_err(), -1);
    assert_eq!(prepare_create(Some(b"x"), Some(&[0x80]), None).unwrap_err(), -1);
}

#[test]
fn create_wallet_validation() {
    match prepare_create_wallet(None) {
        Ok(Operation::CreateWallet { seed }) => assert_eq!(seed.len(), 32),
        other => panic!("expected a generated seed, got {:?}", other),
    }
    let seed = [7u8; 32];
    match prepare_create_wallet(Some(&seed)) {
        Ok(Operation::CreateWallet { seed: s }) => assert_eq!(s, seed.to_vec()),
        other => panic!("expected the supplied seed, got {:?}", other),
    }
    assert_eq!(prepare_create_wallet(Some(&[1, 2, 3])).unwrap_err(), -1);
}

#[test]
fn balance_validation_rejects_bad_id() {
    assert_eq!(prepare_get_balance(b"not-hex").unwrap_err(), -3);
    match prepare_get_balance(ACCOUNT.as_bytes()) {
        Ok(Operation::GetBalance { account_id }) => {
            assert_eq!(account_id, ACCOUNT.as_bytes().to_vec())
        },
        other => panic!("expected the operation, got {:?}", other),
    }
}

#[test]
fn input_notes_validation() {
    match prepare_get_input_notes(None) {
        Ok(Operation::GetInputNotes { account_id }) => assert!(account_id.is_none()),
        other => panic!("unexpected {:?}", other),
    }
    match prepare_get_input_notes(Some(b"")) {
        Ok(Operation::GetInputNotes { account_id }) => assert!(account_id.is_none()),
        other => panic!("unexpected {:?}", other),
    }
    match prepare_get_input_notes(Some(ACCOUNT.as_bytes())) {
        Ok(Operation::GetInputNotes { account_id }) => {
            assert_eq!(account_id.unwrap(), ACCOUNT.as_bytes().to_vec())
        },
        other => panic!("unexpected {:?}", other),
    }
    assert_eq!(prepare_get_input_notes(Some(b"junk")).unwrap_err(), -3);
}

#[test]
fn consume_notes_validation() {
    // An empty list is rejected with the note-operation code.
    let json = b"[]";
    assert_eq!(prepare_consume_notes(ACCOUNT.as_bytes(), json).unwrap_err(), -4);
    // An unparsable list too.
    assert_eq!(prepare_consume_notes(ACCOUNT.as_bytes(), b"nope").unwrap_err(), -4);
    // A bad account id takes precedence.
    assert_eq!(prepare_consume_notes(b"nope", b"[]").unwrap_err(), -3);
    let good = format!("[\"{}\"]", NOTE);
    match prepare_consume_notes(ACCOUNT.as_bytes(), good.as_bytes()) {
        Ok(Operation::ConsumeNotes { account_id, note_ids }) => {
            assert_eq!(account_id, ACCOUNT.as_bytes().to_vec());
            assert_eq!(note_ids, vec![NOTE.as_bytes().to_vec()]);
        },
        other => panic!("unexpected {:?}", other),
    }
}
