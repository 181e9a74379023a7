//! Types of outside crates that the records of this library carry.
//!
//! Each declaration makes the outside type usable in fields and
//! signatures; its values stay opaque and are only carried through.
use vstd::prelude::*;

verus! {

/// `heapless_bytes::Bytes<N>`: a byte string of at most `N` bytes.
#[verifier::external_type_specification]
#[verifier::external_body]
pub struct ExBytes<const N: usize>(heapless_bytes::Bytes<N>);

/// `trussed_core::types::KeyId`: the identifier of a key in the key store.
#[verifier::external_type_specification]
#[verifier::external_body]
pub struct ExKeyId(trussed_core::types::KeyId);

/// `cbor_smol::Error`: why a CBOR encoding or decoding failed.
#[verifier::external_type_specification]
#[verifier::external_body]
pub struct ExCborError(cbor_smol::Error);

/// `KeyId` is `Copy` (its `Clone` is derived beside `Copy`): a clone is
/// the same identifier.
pub assume_specification[ <trussed_core::types::KeyId as core::clone::Clone>::clone ](
    k: &trussed_core::types::KeyId,
) -> (res: trussed_core::types::KeyId)
    ensures
        res == *k,
;

} // verus!
