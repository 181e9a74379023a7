use heapless_bytes::Bytes;
use trussed_core::types::KeyId;
use webcrypt::commands_types::{
    map_codec_result, CommandSignRequest, Credential, CredentialData, KeyHandle, Message,
};
use webcrypt::types::ERROR_ID;

#[test]
fn credential_data_new_records_key_and_zero_metadata() {
    let key = KeyId::from_value(0x1234_5678_9abc_def0);
    let c = CredentialData::new(key);
    assert_eq!(c.creation_time, 0);
    assert_eq!(c.algorithm, 0);
    assert_eq!(c.allowed_use, 0);
    assert_eq!(c.key_id, key);
    assert_eq!(c.key_id.value(), 0x1234_5678_9abc_def0);
}

#[test]
fn credential_clone_keeps_fields() {
    let mut data = CredentialData::new(KeyId::from_value(7));
    data.creation_time = 1_700_000_000;
    data.algorithm = -7;
    data.allowed_use = 3;
    let cred = Credential { data };
    let copy = cred.clone();
    assert_eq!(copy.data.creation_time, 1_700_000_000);
    assert_eq!(copy.data.algorithm, -7);
    assert_eq!(copy.data.allowed_use, 3);
    assert_eq!(copy.data.key_id.value(), 7);
}

#[test]
fn codec_success_passes_value_through() {
    let msg: Message = Bytes::from_slice(&[1, 2, 3]).unwrap();
    let r = map_codec_result(Ok(msg));
    let got = r.unwrap();
    assert_eq!(got.as_slice(), &[1u8, 2, 3][..]);
}

#[test]
fn codec_buffer_full_is_internal_error() {
    let r: Result<Message, ERROR_ID> = map_codec_result(Err(cbor_smol::Error::SerializeBufferFull));
    assert_eq!(r.unwrap_err(), ERROR_ID::ERR_INTERNAL_ERROR);
}

#[test]
fn codec_decode_failure_is_internal_error() {
    let r: Result<u32, ERROR_ID> =
        map_codec_result(Err(cbor_smol::Error::DeserializeUnexpectedEnd));
    assert_eq!(r, Err(ERROR_ID::ERR_INTERNAL_ERROR));
}

#[test]
fn codec_real_encoding_of_key_id() {
    let key = KeyId::from_value(0x0102);
    let mut data: Bytes<1024> = Bytes::new();
    let written = cbor_smol::cbor_serialize_to(&key, &mut data).map(|_| data);
    let msg = map_codec_result(written).unwrap();
    // byte string of 16 bytes: major type 2, length 16, then the big-endian value
    assert_eq!(msg.len(), 17);
    assert_eq!(msg.as_slice()[0], 0x50);
    assert_eq!(msg.as_slice()[15], 0x01);
    assert_eq!(msg.as_slice()[16], 0x02);
}

#[test]
fn codec_real_encoding_too_large_is_internal_error() {
    let key = KeyId::from_value(u128::MAX);
    let mut data: Bytes<8> = Bytes::new();
    let written = cbor_smol::cbor_serialize_to(&key, &mut data).map(|_| data);
    assert!(map_codec_result(written).is_err());
}

#[test]
fn records_hold_bounded_byte_strings() {
    let req = CommandSignRequest {
        hash: Bytes::from_slice(&[0xAB; 32]).unwrap(),
        keyhandle: Bytes::from_slice(&[1; 10]).unwrap(),
        tp: None,
    };
    assert_eq!(req.hash.len(), 32);
    assert_eq!(req.keyhandle.len(), 10);
    assert!(req.tp.is_none());
    let too_long: Result<Bytes<32>, ()> = Bytes::from_slice(&[0; 33]);
    assert!(too_long.is_err());
    let kh = KeyHandle {
        appid: Bytes::new(),
        wrapped_private_key: Bytes::from_slice(&[9; 256]).unwrap(),
        nonce: Bytes::from_slice(&[0; 12]).unwrap(),
        usage_flags: Some(1),
    };
    assert_eq!(kh.wrapped_private_key.len(), 256);
    assert_eq!(kh.usage_flags, Some(1));
}
