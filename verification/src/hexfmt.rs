//! Hex encoding of raw id bytes for the boundary.
//!
//! The encoding is fully specified — lowercase, two digits per byte, high
//! nibble first — and the outside encoder is held to exactly that statement.

use vstd::prelude::*;

use crate::codes::{CODE_INVALID_PARAM, CODE_OK};
use crate::handoff::CallerBuffer;

verus! {

/// The lowercase hex digit for a nibble.
pub open spec fn hex_digit(d: u8) -> u8
    recommends
        d < 16,
{
    if d < 10 {
        (48 + d) as u8
    } else {
        (87 + d) as u8
    }
}

/// The lowercase hex encoding of `data`: two digits per byte, high nibble
/// first.
pub open spec fn hex_of(data: Seq<u8>) -> Seq<u8>
    decreases data.len(),
{
    if data.len() == 0 {
        Seq::empty()
    } else {
        hex_of(data.drop_last()) + seq![
            hex_digit((data.last() / 16) as u8),
            hex_digit((data.last() % 16) as u8),
        ]
    }
}

/// The encoding is two digits per byte.
pub proof fn lemma_hex_of_len(data: Seq<u8>)
    ensures
        hex_of(data).len() == 2 * data.len(),
    decreases data.len(),
{
    if data.len() > 0 {
        lemma_hex_of_len(data.drop_last());
    }
}

/// Relies on `hex::encode`: lowercase digits, two per byte, high nibble
/// first.
#[verifier::external_body]
fn hex_encode_call(data: &[u8]) -> (r: Vec<u8>)
    ensures
        r@ == hex_of(data@),
{
    hex::encode(data).into_bytes()
}

/// The lowercase hex encoding of `data`.
pub fn hex_encode_bytes(data: &[u8]) -> (r: Vec<u8>)
    ensures
        r@ == hex_of(data@),
        r@.len() == 2 * data@.len(),
{
    let r = hex_encode_call(data);
    proof {
        lemma_hex_of_len(data@);
    }
    r
}

/// Encode raw id bytes into a caller-supplied buffer: written only if the
/// encoding fits, with the invalid-parameter code otherwise.
pub fn id_hex_to_buffer(id_bytes: &[u8], out: &mut CallerBuffer) -> (code: i32)
    requires
        old(out).wf(),
    ensures
        final(out).wf(),
        final(out).cap() == old(out).cap(),
        2 * id_bytes@.len() <= old(out).cap() ==> code == CODE_OK && final(out).contents()
            == hex_of(id_bytes@),
        2 * id_bytes@.len() > old(out).cap() ==> code == CODE_INVALID_PARAM
            && final(out).contents() == old(out).contents(),
{
    let encoded = hex_encode_bytes(id_bytes);
    out.write(encoded.as_slice())
}

} // verus!
