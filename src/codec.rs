use vstd::prelude::*;

use vstd::string::StringSliceAdditionalSpecFns;

use crate::bridge::{bytes_of, unsigned_bytes};

verus! {

/// A value of the self-describing binary format (CBOR) that carries values
/// across the engine/host boundary.
#[verifier::external_type_specification]
#[verifier::external_body]
pub struct ExCborValue(serde_cbor::Value);

/// Whether `b` is exactly one well-formed CBOR item, as serde_cbor reads it.
pub uninterp spec fn cbor_parses(b: Seq<u8>) -> bool;

/// What base64 decoding makes of `s`, if it is valid base64.
pub uninterp spec fn base64_decoded(s: Seq<u8>) -> Option<Seq<u8>>;

/// Relies on serde_cbor::from_slice: it reads one CBOR item that spans all of
/// `b`, and fails on anything else.
#[verifier::external_body]
fn cbor_from_slice(b: &[u8]) -> (r: Option<serde_cbor::Value>)
    ensures
        r is Some == cbor_parses(b@),
{
    serde_cbor::from_slice::<serde_cbor::Value>(b).ok()
}

/// Relies on base64::decode: the bytes that standard base64 text stands for.
#[verifier::external_body]
fn base64_decode(s: &str) -> (r: Option<Vec<u8>>)
    ensures
        r matches Some(v) ==> base64_decoded(s.spec_bytes()) == Some(v@),
        r is None ==> base64_decoded(s.spec_bytes()) is None,
{
    base64::decode(s).ok()
}

/// Why a value could not cross the boundary. The stages fail apart, so a
/// caller can tell malformed bytes from a value the other side cannot hold.
#[derive(Copy, Clone, Debug, PartialEq, Eq, Structural)]
pub enum CodecError {
    /// The bytes are not one well-formed CBOR item.
    Deserialize,
    /// The value could not be written as CBOR.
    Serialize,
    /// The value has no counterpart on the other side.
    Convert,
}

impl CodecError {
    /// A short description for logs.
    pub fn message(&self) -> (r: &'static str)
        ensures
            *self == CodecError::Deserialize ==> r == "Couldn't deserialize cbor value",
            *self == CodecError::Serialize ==> r == "Couldn't serialize cbor value",
            *self == CodecError::Convert ==> r == "Couldn't convert between cbor value and engine value",
    {
        match self {
            CodecError::Deserialize => "Couldn't deserialize cbor value",
            CodecError::Serialize => "Couldn't serialize cbor value",
            CodecError::Convert => "Couldn't convert between cbor value and engine value",
        }
    }
}

/// Reads one CBOR value from `data`.
pub fn decode_value(data: &[u8]) -> (r: Result<serde_cbor::Value, CodecError>)
    ensures
        r is Ok <==> cbor_parses(data@),
        r is Err ==> r == Err::<serde_cbor::Value, CodecError>(CodecError::Deserialize),
{
    match cbor_from_slice(data) {
        Some(v) => Ok(v),
        None => Err(CodecError::Deserialize),
    }
}

/// Reads the CBOR-encoded argument array that a foreign caller hands over
/// as a signed buffer.
pub fn decode_arguments(data: &[i8]) -> (r: Result<serde_cbor::Value, CodecError>)
    ensures
        r is Ok <==> cbor_parses(bytes_of(data@)),
        r is Err ==> r == Err::<serde_cbor::Value, CodecError>(CodecError::Deserialize),
{
    let bytes = unsigned_bytes(data);
    decode_value(&bytes)
}

/// Decodes a base64 payload that a host delivers for a deferred load.
pub fn decode_payload(data: &str) -> (r: Option<Vec<u8>>)
    ensures
        r matches Some(v) ==> base64_decoded(data.spec_bytes()) == Some(v@),
        r is None <==> base64_decoded(data.spec_bytes()) is None,
{
    base64_decode(data)
}

} // verus!
