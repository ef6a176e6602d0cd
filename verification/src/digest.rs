//! The Keccak-256 digest offered at the boundary.
//!
//! The digest itself is computed by an outside implementation and is far too
//! large to state; its result is only given a name, `keccak256_of`, a pure
//! function of the input bytes alone.  Everything around the call — the
//! 32-byte length and the caller-buffer protocol — is verified.

use sha3::Digest;
use vstd::prelude::*;

use crate::codes::{CODE_INVALID_PARAM, CODE_OK};
use crate::handoff::CallerBuffer;

verus! {

/// The Keccak-256 digest of `data`: a function of the input bytes alone.
pub uninterp spec fn keccak256_of(data: Seq<u8>) -> Seq<u8>;

/// Relies on `sha3::Keccak256` (through the `Digest` trait): the digest is a
/// pure function of the input bytes, 32 bytes long.
#[verifier::external_body]
fn keccak256_call(data: &[u8]) -> (r: Vec<u8>)
    ensures
        r@ == keccak256_of(data@),
        r@.len() == 32,
{
    sha3::Keccak256::digest(data).to_vec()
}

/// The Keccak-256 digest of `data`, as 32 bytes.
pub fn keccak256_bytes(data: &[u8]) -> (r: Vec<u8>)
    ensures
        r@ == keccak256_of(data@),
        r@.len() == 32,
{
    keccak256_call(data)
}

/// Digest `data` into a caller-supplied buffer: written only if the 32
/// bytes fit, with the invalid-parameter code otherwise.
pub fn keccak256_to_buffer(data: &[u8], out: &mut CallerBuffer) -> (code: i32)
    requires
        old(out).wf(),
    ensures
        final(out).wf(),
        final(out).cap() == old(out).cap(),
        old(out).cap() >= 32 ==> code == CODE_OK && final(out).contents() == keccak256_of(data@),
        old(out).cap() < 32 ==> code == CODE_INVALID_PARAM && final(out).contents() == old(
            out,
        ).contents(),
{
    let digest = keccak256_bytes(data);
    out.write(digest.as_slice())
}

} // verus!
