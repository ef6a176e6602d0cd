use miden_bridge::digest::keccak256_to_buffer;
use miden_bridge::handoff::{BufferLedger, CallerBuffer};
use miden_bridge::hexfmt::id_hex_to_buffer;

#[test]
fn caller_buffer_writes_when_it_fits() {
    let mut buf = CallerBuffer::new(8);
    assert_eq!(buf.write(b"hello"), 0);
    assert_eq!(buf.len(), 5);
    assert_eq!(buf.as_bytes(), b"hello");
}

#[test]
fn caller_buffer_never_truncates() {
    let mut buf = CallerBuffer::new(4);
    assert_eq!(buf.write(b"hi"), 0);
    // Too large: rejected whole, previous contents untouched.
    assert_eq!(buf.write(b"toolarge"), -1);
    assert_eq!(buf.as_bytes(), b"hi");
}

#[test]
fn ledger_round_trip_returns_to_baseline() {
    let mut ledger = BufferLedger::new();
    assert_eq!(ledger.outstanding(), 0);
    let loan = ledger.hand_out(16);
    assert_eq!(loan.len, 16);
    assert_eq!(ledger.outstanding(), 1);
    // Releasing the exact (token, length) pair succeeds exactly once.
    assert!(ledger.release(loan.token, loan.len));
    assert_eq!(ledger.outstanding(), 0);
}

#[test]
fn ledger_rejects_double_release() {
    let mut ledger = BufferLedger::new();
    let loan = ledger.hand_out(8);
    assert!(ledger.release(loan.token, loan.len));
    assert!(!ledger.release(loan.token, loan.len));
    assert_eq!(ledger.outstanding(), 0);
}

#[test]
fn ledger_rejects_mismatched_length() {
    let mut ledger = BufferLedger::new();
    let loan = ledger.hand_out(8);
    assert!(!ledger.release(loan.token, 7));
    assert!(!ledger.release(loan.token + 1, 8));
    assert_eq!(ledger.outstanding(), 1);
    assert!(ledger.release(loan.token, 8));
}

#[test]
fn ledger_tracks_several_loans() {
    let mut ledger = BufferLedger::new();
    let a = ledger.hand_out(1);
    let b = ledger.hand_out(2);
    let c = ledger.hand_out(3);
    assert_eq!(ledger.outstanding(), 3);
    assert!(ledger.release(b.token, b.len));
    assert_eq!(ledger.outstanding(), 2);
    assert!(ledger.release(a.token, a.len));
    assert!(ledger.release(c.token, c.len));
    assert_eq!(ledger.outstanding(), 0);
}

#[test]
fn digest_into_caller_buffer() {
    let mut buf = CallerBuffer::new(1024);
    assert_eq!(keccak256_to_buffer(b"abc", &mut buf), 0);
    assert_eq!(buf.len(), 32);
    let mut small = CallerBuffer::new(16);
    assert_eq!(keccak256_to_buffer(b"abc", &mut small), -1);
    assert_eq!(small.len(), 0);
}

#[test]
fn id_hex_into_caller_buffer() {
    let mut buf = CallerBuffer::new(64);
    assert_eq!(id_hex_to_buffer(&[0xbe, 0xef], &mut buf), 0);
    assert_eq!(buf.as_bytes(), b"beef");
    let mut small = CallerBuffer::new(3);
    assert_eq!(id_hex_to_buffer(&[0xbe, 0xef], &mut small), -1);
}
