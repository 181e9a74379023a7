//! Request and response records of the WebCrypt command set, with the
//! credential record that is kept in the key store and the handling of
//! its CBOR encoding outcome.
pub mod commands_types;
pub mod outside;
pub mod types;
