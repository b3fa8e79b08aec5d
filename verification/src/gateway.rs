//! The proof gateway: derives a binding value from the public inputs of a proof.
//!
//! The public inputs arrive as a host-side byte string. The agreed layout
//! puts the commitment hash last, so the binding value is the final 32 bytes.

use vstd::prelude::*;
use crate::error::{ClashError, Error};

verus! {

/// Number of bytes in a binding value.
pub const BINDING_LEN: u32 = 32;

/// The host-side byte string `soroban_sdk::Bytes`. The verifier sees
/// nothing inside it; what it holds is spoken of through `bytes_content`.
#[verifier::external_type_specification]
#[verifier::external_body]
pub struct ExBytes(soroban_sdk::Bytes);

/// The bytes that a `soroban_sdk::Bytes` holds, in order. The name has no
/// definition here: the contracts of `bytes_len` and `bytes_get` are all
/// that is known of it.
pub uninterp spec fn bytes_content(b: soroban_sdk::Bytes) -> Seq<u8>;

/// Calls `soroban_sdk::Bytes::len`. Taken on trust: the result is the
/// number of bytes that the string holds.
#[verifier::external_body]
pub(crate) fn bytes_len(b: &soroban_sdk::Bytes) -> (n: u32)
    ensures
        n == bytes_content(*b).len(),
{
    b.len()
}

/// Calls `soroban_sdk::Bytes::get`. Taken on trust: the result is the byte
/// at position `i`, and `None` exactly when `i` is not below the length.
#[verifier::external_body]
pub(crate) fn bytes_get(b: &soroban_sdk::Bytes, i: u32) -> (r: Option<u8>)
    ensures
        r == if i < bytes_content(*b).len() {
            Some(bytes_content(*b)[i as int])
        } else {
            None::<u8>
        },
{
    b.get(i)
}

/// Whether public inputs are long enough to hold a binding value.
pub open spec fn has_binding(inputs: Seq<u8>) -> bool {
    inputs.len() >= BINDING_LEN
}

/// The binding value of public inputs: their last 32 bytes.
pub open spec fn binding_of(inputs: Seq<u8>) -> Seq<u8> {
    inputs.subrange(inputs.len() - BINDING_LEN, inputs.len() as int)
}

/// Copies the last 32 bytes out of the host-side string.
fn last_bytes(public_inputs: &soroban_sdk::Bytes) -> (r: Option<[u8; 32]>)
    ensures
        r is Some <==> has_binding(bytes_content(*public_inputs)),
        r matches Some(hash) ==> hash@ == binding_of(bytes_content(*public_inputs)),
{
    let len: u32 = bytes_len(public_inputs);
    if len < BINDING_LEN {
        return None;
    }
    let start: u32 = len - BINDING_LEN;
    let mut hash_array: [u8; 32] = [0u8; 32];
    let mut i: u32 = 0;
    while i < BINDING_LEN
        invariant
            i <= BINDING_LEN,
            len == bytes_content(*public_inputs).len(),
            start == len - BINDING_LEN,
            forall|j: int| 0 <= j < i ==> hash_array@[j] == bytes_content(*public_inputs)[start + j],
        decreases BINDING_LEN - i,
    {
        match bytes_get(public_inputs, start + i) {
            Some(byte) => {
                hash_array[i as usize] = byte;
            },
            None => {
                return None;
            },
        }
        i = i + 1;
    }
    assert(hash_array@ =~= binding_of(bytes_content(*public_inputs)));
    Some(hash_array)
}

/// Turns the verifier's verdict on a proof into the binding value of its
/// public inputs.
///
/// `accepted` says whether the verifier was reached and accepted the proof.
/// The binding value is returned when it did and the public inputs hold at
/// least 32 bytes; every other case is a verification failure.
pub fn verify_proof(accepted: bool, public_inputs: &soroban_sdk::Bytes) -> (r: Result<
    [u8; 32],
    ClashError,
>)
    ensures
        r is Ok <==> accepted && has_binding(bytes_content(*public_inputs)),
        r matches Ok(hash) ==> hash@ == binding_of(bytes_content(*public_inputs)),
        r matches Err(e) ==> e == ClashError::VerificationFailed,
{
    if !accepted {
        return Err(ClashError::VerificationFailed);
    }
    match last_bytes(public_inputs) {
        Some(hash) => Ok(hash),
        None => Err(ClashError::VerificationFailed),
    }
}

/// Reads the commitment hash out of the public inputs of a reveal.
///
/// Public inputs shorter than 32 bytes are malformed.
pub fn extract_commitment_hash(public_inputs: &soroban_sdk::Bytes) -> (r: Result<[u8; 32], Error>)
    ensures
        r is Ok <==> has_binding(bytes_content(*public_inputs)),
        r matches Ok(hash) ==> hash@ == binding_of(bytes_content(*public_inputs)),
        r matches Err(e) ==> e == Error::InvalidPublicInputs,
{
    match last_bytes(public_inputs) {
        Some(hash) => Ok(hash),
        None => Err(Error::InvalidPublicInputs),
    }
}

/// Whether two binding values are the same, byte for byte.
pub fn same_binding(a: &[u8; 32], b: &[u8; 32]) -> (r: bool)
    ensures
        r == (a@ == b@),
        r == (*a == *b),
{
    let mut i: usize = 0;
    while i < 32
        invariant
            i <= 32,
            forall|j: int| 0 <= j < i ==> a@[j] == b@[j],
        decreases 32 - i,
    {
        if a[i] != b[i] {
            return false;
        }
        i = i + 1;
    }
    assert(a@ =~= b@);
    assert(*a =~= *b);
    true
}

} // verus!
