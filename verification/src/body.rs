//! Byte buffers handed to the HTTP layer, and the JSON serialiser's error.
use vstd::prelude::*;

verus! {

/// `bytes::Bytes`, the immutable buffer that response bodies are made of.
#[verifier::external_type_specification]
#[verifier::external_body]
pub struct ExBytes(bytes::Bytes);

/// `serde_json::Error`, what `serde_json::to_vec` reports when a value
/// cannot be serialised.
#[verifier::external_type_specification]
#[verifier::external_body]
pub struct ExSerdeJsonError(serde_json::Error);

/// The bytes that a `bytes::Bytes` buffer holds, in order.
pub uninterp spec fn bytes_contents(b: bytes::Bytes) -> Seq<u8>;

/// `<bytes::Bytes as From<Vec<u8>>>::from`: the buffer takes over the
/// vector's allocation, so it holds exactly the vector's bytes, in order.
#[verifier::external_body]
pub fn bytes_from_vec(v: Vec<u8>) -> (b: bytes::Bytes)
    ensures
        bytes_contents(b) == v@,
{
    bytes::Bytes::from(v)
}

} // verus!
