use vstd::prelude::*;

use crate::bridge::bytes_of;
use crate::codec::{cbor_parses, decode_arguments};

verus! {

/// Why a script function of the loaded document could not be called.
#[derive(Copy, Clone, Debug, PartialEq, Eq, Structural)]
pub enum CallError {
    /// The arguments are not one well-formed CBOR item.
    Deserialize,
    /// The arguments have no counterpart among the engine's values.
    Convert,
    /// No document is loaded.
    NoRoot,
    /// The script has no such function, or it failed.
    CallFailed,
}

impl CallError {
    /// A short description for logs and foreign callers.
    pub fn message(&self) -> (r: &'static str)
        ensures
            *self == CallError::Deserialize ==> r == "Couldn't deserialize cbor value",
            *self == CallError::Convert ==> r == "Couldn't convert cbor value to sciter value",
            *self == CallError::NoRoot ==> r == "Couldn't get root",
            *self == CallError::CallFailed ==> r == "Couldn't call event",
    {
        match self {
            CallError::Deserialize => "Couldn't deserialize cbor value",
            CallError::Convert => "Couldn't convert cbor value to sciter value",
            CallError::NoRoot => "Couldn't get root",
            CallError::CallFailed => "Couldn't call event",
        }
    }
}

/// Reads the arguments of a script function call: a CBOR-encoded array
/// handed over as a signed buffer. They are read before the document is
/// looked at.
pub fn call_arguments(data: &[i8]) -> (r: Result<serde_cbor::Value, CallError>)
    ensures
        r is Ok <==> cbor_parses(bytes_of(data@)),
        r is Err ==> r == Err::<serde_cbor::Value, CallError>(CallError::Deserialize),
{
    match decode_arguments(data) {
        Ok(v) => Ok(v),
        Err(_) => Err(CallError::Deserialize),
    }
}

} // verus!
