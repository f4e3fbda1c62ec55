use std::collections::BTreeMap;

use serde_cbor::Value;
use skiter::codec::{decode_arguments, decode_payload, decode_value, CodecError};

fn round_trip(v: Value) {
    let bytes = serde_cbor::to_vec(&v).unwrap();
    assert_eq!(decode_value(&bytes), Ok(v));
}

#[test]
fn integer_array_stays_integers() {
    assert_eq!(
        decode_value(&[0x82, 0x0a, 0x0a]),
        Ok(Value::Array(vec![Value::Integer(10), Value::Integer(10)]))
    );
    assert_eq!(
        serde_cbor::to_vec(&Value::Array(vec![Value::Integer(10), Value::Integer(10)])).unwrap(),
        vec![0x82u8, 0x0a, 0x0a]
    );
}

#[test]
fn scalars_round_trip() {
    round_trip(Value::Null);
    round_trip(Value::Bool(true));
    round_trip(Value::Bool(false));
    round_trip(Value::Integer(0));
    round_trip(Value::Integer(-7));
    round_trip(Value::Integer(1 << 40));
    round_trip(Value::Float(1.5));
    round_trip(Value::Text("héllo".to_string()));
    round_trip(Value::Text(String::new()));
}

#[test]
fn blobs_round_trip_byte_exact() {
    round_trip(Value::Bytes(vec![0, 0, 255, 10, 0]));
    round_trip(Value::Bytes(vec![]));
}

#[test]
fn containers_round_trip() {
    round_trip(Value::Array(vec![]));
    round_trip(Value::Map(BTreeMap::new()));
    let mut inner = BTreeMap::new();
    inner.insert(Value::Text("k".to_string()), Value::Array(vec![Value::Null]));
    inner.insert(Value::Integer(3), Value::Bytes(vec![1, 2]));
    round_trip(Value::Array(vec![
        Value::Map(inner),
        Value::Array(vec![Value::Array(vec![Value::Integer(1)])]),
    ]));
}

#[test]
fn malformed_bytes_fail_to_deserialize() {
    assert_eq!(decode_value(&[0x82, 0x0a]), Err(CodecError::Deserialize));
    assert_eq!(decode_value(&[0x0a, 0x0a]), Err(CodecError::Deserialize));
    assert_eq!(decode_value(&[]), Err(CodecError::Deserialize));
    assert!(matches!(decode_arguments(&[-1, -1]), Err(CodecError::Deserialize)));
}

#[test]
fn base64_payloads() {
    assert_eq!(decode_payload("aGVsbG8="), Some(b"hello".to_vec()));
    assert_eq!(decode_payload(""), Some(vec![]));
    assert_eq!(decode_payload("!!"), None);
}

#[test]
fn codec_error_messages() {
    assert_eq!(CodecError::Deserialize.message(), "Couldn't deserialize cbor value");
    assert_eq!(CodecError::Serialize.message(), "Couldn't serialize cbor value");
}
