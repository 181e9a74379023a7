# webcrypt command records

The request and response records of the WebCrypt command set, the credential
record kept in the key store, and key handles.

- `src/` (verified with Verus): the records, `CredentialData::new`, and
  `map_codec_result`, which turns what a CBOR encoder or decoder returned into
  the result of a command (`ERR_INTERNAL_ERROR` on any codec failure).
  `src/outside.rs` declares the outside types the records carry
  (`heapless_bytes::Bytes<N>`, `trussed_core::types::KeyId`, `cbor_smol::Error`).
- `app/`: the same records with their serde derives (field names in upper
  case, optional fields left out when empty, the credential with integer keys),
  conversions both ways, and the CBOR encoding and decoding of the credential
  and of key handles, which call `cbor_smol`.
- `tests/`: tests of the library against the real outside crates.
