//! Requests and responses of the WebCrypt commands, and the credential
//! record kept in the key store.
use heapless_bytes::{Bytes, Bytes32, Bytes64};
use trussed_core::types::KeyId;
use vstd::prelude::*;

use crate::types::ERROR_ID;

verus! {

/// The message buffer of the key store: at most 1024 bytes.
pub type Message = Bytes<1024>;

pub type Bytes8 = Bytes<8>;

pub type Bytes40 = Bytes<40>;

pub type Bytes65 = Bytes<65>;

pub type Bytes200 = Bytes<200>;

pub type Bytes250 = Bytes<250>;

pub type DataBytes = Bytes<1024>;

pub type SessionToken = Bytes32;

pub type ExpectedSessionToken = Option<SessionToken>;

pub type SerializedCredential = Message;

pub type ResultW<T> = core::result::Result<T, ERROR_ID>;

pub type KeyHandleSerialized = Bytes250;

#[derive(Debug)]
pub struct CommandStatusResponse {
    /// True, when unlocked through the Login command; U2F compatibility
    pub unlocked: bool,
    /// Webcrypt's version
    pub version: u16,
    pub version_string: Option<Bytes<100>>,
    /// Count of a free Webcrypt's resident keys' slots
    pub slots: u16,
    /// The current FIDO2/U2F PIN attempt counter value
    pub pin_attempts: u8,
}

#[derive(Clone, Debug)]
pub struct CredentialData {
    pub creation_time: u32,
    /// P256 or Ed25519
    pub algorithm: i32,
    pub allowed_use: i32,
    pub key_id: KeyId,
}

#[derive(Clone, Debug)]
pub struct Credential {
    pub data: CredentialData,
}

#[derive(Debug)]
pub struct CommandGenerateResponse {
    /// resulting public key
    pub pubkey: Bytes65,
    /// key handle, should be less than 200 bytes
    pub keyhandle: KeyHandleSerialized,
}

#[derive(Debug)]
pub struct CommandSignResponse {
    /// signed hash, the same given on input, 32 bytes
    pub inhash: Bytes32,
    /// signature, should be less than 100 bytes
    pub signature: Bytes200,
}

#[derive(Debug)]
pub struct CommandSignRequest {
    /// hash to sign, 32 bytes
    pub hash: Bytes32,
    /// key handle, should be less than 200 bytes
    pub keyhandle: KeyHandleSerialized,
    pub tp: ExpectedSessionToken,
}

#[derive(Debug)]
pub struct CommandOpenPGPDecryptRequest {
    /// ephemeral ecc encryption key
    pub eccekey: DataBytes,
    /// key handle, should be less than 200 bytes
    pub keyhandle: Option<KeyHandleSerialized>,
    /// public key fingerprint
    pub fingerprint: Option<DataBytes>,
    /// name of the algorithm for decryption
    pub oid: Option<DataBytes>,
    pub tp: ExpectedSessionToken,
}

#[derive(Debug)]
pub struct CommandOpenPGPDecryptResponse {
    /// result of decryption
    pub data: DataBytes,
}

#[derive(Debug)]
pub struct CommandOpenPGPSignRequest {
    /// data to sign
    pub data: DataBytes,
    /// name of the algorithm for decryption
    pub oid: Option<DataBytes>,
    pub tp: ExpectedSessionToken,
}

#[derive(Debug)]
pub struct CommandOpenPGPSignResponse {
    /// result of decryption
    pub signature: DataBytes,
}

#[derive(Debug)]
pub struct CommandOpenPGPInfoRequest {
    pub tp: ExpectedSessionToken,
}

#[derive(Debug)]
pub struct CommandOpenPGPInfoResponse {
    pub encr_pubkey: DataBytes,
    pub auth_pubkey: DataBytes,
    pub sign_pubkey: DataBytes,
    pub date: DataBytes,
}

#[derive(Debug)]
pub struct CommandOpenPGPImportRequest {
    pub encr_privkey: DataBytes,
    pub auth_privkey: DataBytes,
    pub sign_privkey: DataBytes,
    pub date: Option<DataBytes>,
    pub tp: ExpectedSessionToken,
}

#[derive(Debug)]
pub struct CommandDecryptRequest {
    /// data to decrypt
    pub data: DataBytes,
    /// ciphertext's hmac
    pub hmac: DataBytes,
    /// ephemeral ecc encryption key
    pub eccekey: DataBytes,
    /// key handle, should be less than 200 bytes
    pub keyhandle: KeyHandleSerialized,
    pub tp: ExpectedSessionToken,
}

#[derive(Debug)]
pub struct CommandDecryptResponse {
    /// data to decrypt
    pub data: DataBytes,
}

#[derive(Debug)]
pub struct CommandEmptyRequest {
    pub tp: ExpectedSessionToken,
}

pub type CommandGenerateRequest = CommandEmptyRequest;

pub type CommandLogoutRequest = CommandEmptyRequest;

#[derive(Debug)]
pub struct CommandGenerateFromDataRequest {
    /// data to be used for key derivation
    pub hash: DataBytes,
    pub tp: ExpectedSessionToken,
}

/// The same fields as [`CommandGenerateResponse`].
#[derive(Debug)]
pub struct CommandGenerateFromDataResponse {
    /// resulting public key
    pub pubkey: Bytes65,
    /// key handle, should be less than 200 bytes
    pub keyhandle: KeyHandleSerialized,
}

#[derive(Debug)]
pub struct CommandInitializeRequest {
    /// data to be used as an additional source of the random data for the master key generation
    pub entropy: Option<Bytes40>,
    pub tp: ExpectedSessionToken,
}

#[derive(Debug)]
pub struct CommandInitializeResponse {
    /// generated master key, returned for backup, 32 bytes
    pub master: Bytes32,
    /// salt, 8 bytes
    pub salt: Bytes8,
}

#[derive(Debug)]
pub struct CommandRestoreRequest {
    /// generated master key, returned for backup, 32 bytes
    pub master: Bytes32,
    /// salt, 8 bytes
    pub salt: Bytes8,
    pub tp: ExpectedSessionToken,
}

#[derive(Debug)]
pub struct CommandRestoreResponse {
    /// data to be used as an additional source of the random data for the master key generation
    pub hash: Bytes32,
}

#[derive(Debug)]
pub struct CommandWriteResidentKeyRequest {
    /// Sent in P256 serialized private key
    pub raw_key_data: Bytes32,
    pub tp: ExpectedSessionToken,
}

#[derive(Debug)]
pub struct CommandGenerateResidentKeyRequest {
    pub tp: ExpectedSessionToken,
}

pub type CommandWriteResidentKeyResponse = CommandGenerateResidentKeyResponse;

#[derive(Debug)]
pub struct CommandGenerateResidentKeyResponse {
    /// resulting public key
    pub pubkey: Bytes65,
    /// short key handle of the resident key
    pub keyhandle: Bytes32,
}

#[derive(Debug)]
pub struct CommandDiscoverResidentKeyRequest {
    pub tp: ExpectedSessionToken,
}

#[derive(Debug)]
pub struct CommandDiscoverResidentKeyResponse {
    /// resulting public key
    pub pubkey: Bytes65,
    /// identifier of the resident key
    pub keyhandle: KeyId,
}

#[derive(Debug)]
pub struct CommandReadResidentKeyRequest {
    /// short key handle of the resident key
    pub keyhandle: Bytes32,
    pub tp: ExpectedSessionToken,
}

#[derive(Debug)]
pub struct CommandLoginRequest {
    /// User PIN. Equal requirements to the FIDO2 PIN.
    pub pin: Bytes64,
    pub tp: ExpectedSessionToken,
}

#[derive(Debug)]
pub struct CommandSetPINRequest {
    /// User PIN. Equal requirements to the FIDO2 PIN.
    pub pin: Bytes64,
    pub tp: ExpectedSessionToken,
}

#[derive(Debug)]
pub struct CommandChangePINRequest {
    /// User PIN. Equal requirements to the FIDO2 PIN.
    pub pin: Bytes64,
    pub newpin: Bytes64,
    pub tp: ExpectedSessionToken,
}

#[derive(Debug)]
pub struct CommandConfigureRequest {
    /// confirmation setting
    pub confirmation: Option<u8>,
    pub tp: ExpectedSessionToken,
}

#[derive(Debug)]
pub struct CommandLoginResponse {
    /// Temporary password / access token
    pub tp: SessionToken,
}

/// A key handle: the application it belongs to and the wrapped private key.
#[derive(Debug)]
pub struct KeyHandle {
    pub appid: Bytes32,
    /// encrypted private key, containing appid info
    pub wrapped_private_key: Bytes<256>,
    /// nonce for encryption
    pub nonce: Bytes<12>,
    /// usage flags for key
    pub usage_flags: Option<u8>,
}

/// What a CBOR encoder or decoder hands back becomes the outcome of a
/// command: a value that was produced is passed on unchanged, and any
/// failure of the codec is reported as `ERR_INTERNAL_ERROR`.
pub open spec fn codec_outcome<T>(r: core::result::Result<T, cbor_smol::Error>) -> ResultW<T> {
    match r {
        Ok(v) => Ok(v),
        Err(_) => Err(ERROR_ID::ERR_INTERNAL_ERROR),
    }
}

/// Turns the outcome of encoding or decoding a record into the result of
/// a command (see [`codec_outcome`]).
pub fn map_codec_result<T>(r: core::result::Result<T, cbor_smol::Error>) -> (res: ResultW<T>)
    ensures
        res == codec_outcome(r),
        res is Ok <==> r is Ok,
{
    match r {
        Ok(v) => Ok(v),
        Err(_) => Err(ERROR_ID::ERR_INTERNAL_ERROR),
    }
}

impl CredentialData {
    /// A credential for `key_id`, with no creation time, algorithm or
    /// allowed use recorded yet.
    pub fn new(key_id: KeyId) -> (res: Self)
        ensures
            res.key_id == key_id,
            res.creation_time == 0,
            res.algorithm == 0,
            res.allowed_use == 0,
    {
        Self { key_id, creation_time: 0, algorithm: 0, allowed_use: 0 }
    }
}

} // verus!
