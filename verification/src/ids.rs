//! The boundary grammar for ledger identifiers.
//!
//! Account ids, note ids and transaction ids cross the boundary as hex
//! strings.  The bridge validates their shape before any request is built:
//! a `0x` prefix followed by a fixed number of hex digits — 30 digits (15
//! bytes) for an account id, 64 digits (32 bytes) for a note id.  Both digit
//! cases are accepted.  Deeper, ledger-defined validity (the metadata bits
//! inside an id) is the worker's concern: an id that passes this grammar but
//! is rejected by the ledger surfaces as a domain error.

use vstd::prelude::*;

verus! {

/// Hex digits in an account id: 15 bytes.
pub const ACCOUNT_ID_HEX_DIGITS: usize = 30;

/// Hex digits in a note id: 32 bytes.
pub const NOTE_ID_HEX_DIGITS: usize = 64;

/// An ASCII hex digit, either case.
pub open spec fn is_hex_digit(b: u8) -> bool {
    (48 <= b <= 57) || (97 <= b <= 102) || (65 <= b <= 70)
}

/// A `0x`-prefixed hex string with exactly `digits` digits.
pub open spec fn valid_id_hex(s: Seq<u8>, digits: nat) -> bool {
    &&& s.len() == digits + 2
    &&& s[0] == 48
    &&& s[1] == 120
    &&& forall|i: int| 2 <= i < s.len() ==> is_hex_digit(#[trigger] s[i])
}

/// The shape of an account id at the boundary.
pub open spec fn valid_account_id(s: Seq<u8>) -> bool {
    valid_id_hex(s, ACCOUNT_ID_HEX_DIGITS as nat)
}

/// The shape of a note id at the boundary.
pub open spec fn valid_note_id(s: Seq<u8>) -> bool {
    valid_id_hex(s, NOTE_ID_HEX_DIGITS as nat)
}

/// Whether one byte is an ASCII hex digit.
pub fn byte_is_hex_digit(b: u8) -> (r: bool)
    ensures
        r == is_hex_digit(b),
{
    (48 <= b && b <= 57) || (97 <= b && b <= 102) || (65 <= b && b <= 70)
}

/// Check one id against the `0x` + fixed-digit-count grammar.
pub fn check_id_hex(s: &[u8], digits: usize) -> (r: bool)
    requires
        digits <= usize::MAX - 2,
    ensures
        r == valid_id_hex(s@, digits as nat),
{
    if s.len() != digits + 2 {
        return false;
    }
    if s[0] != 48 || s[1] != 120 {
        return false;
    }
    let mut i: usize = 2;
    while i < s.len()
        invariant
            2 <= i <= s@.len(),
            forall|j: int| 2 <= j < i ==> is_hex_digit(#[trigger] s@[j]),
        decreases s@.len() - i,
    {
        if !byte_is_hex_digit(s[i]) {
            return false;
        }
        i = i + 1;
    }
    true
}

/// Whether `s` has the shape of an account id.
pub fn is_valid_account_id(s: &[u8]) -> (r: bool)
    ensures
        r == valid_account_id(s@),
{
    check_id_hex(s, ACCOUNT_ID_HEX_DIGITS)
}

/// Whether `s` has the shape of a note id.
pub fn is_valid_note_id(s: &[u8]) -> (r: bool)
    ensures
        r == valid_note_id(s@),
{
    check_id_hex(s, NOTE_ID_HEX_DIGITS)
}

} // verus!
