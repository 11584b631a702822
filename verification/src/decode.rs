//! Deserializer boundary: turn raw body bytes into an integer batch.
//!
//! The deserializer itself is an external collaborator (`serde_json`);
//! this module names what it returns and maps its failure into the
//! library's own error taxonomy.

use vstd::prelude::*;

verus! {

/// What `serde_json::from_slice::<Vec<i64>>` returns on a byte string:
/// `Some` with the decoded batch when the bytes are a JSON array of
/// signed 64-bit integers, `None` when they are malformed. The decoding
/// relation is a function of the bytes alone; it is left opaque here.
pub uninterp spec fn json_int_batch(bytes: Seq<u8>) -> Option<Seq<i64>>;

/// Per-request error taxonomy. Every error is contained within its own
/// request's handling path; none terminates the dispatcher.
#[derive(Debug, Clone, Copy, PartialEq, Eq, Structural)]
pub enum Error {
    /// Failure reading the request body or writing the response; the
    /// connection is dropped.
    Transport,
    /// The payload is not a valid integer sequence; surfaces as a client
    /// error response, never a crash.
    Json,
    /// Failure arming or firing the delay mechanism; fatal for this
    /// request only.
    Timer,
}

impl Error {
    /// Whether this error reports a malformed payload, distinguishable
    /// from a transport or timer failure.
    pub open spec fn spec_is_decode(&self) -> bool {
        self is Json
    }

    /// Whether this error reports a malformed payload.
    pub fn is_decode(&self) -> (r: bool)
        ensures
            r == self.spec_is_decode(),
    {
        matches!(self, Error::Json)
    }
}

/// Relies on `serde_json::from_slice::<Vec<i64>>`: decodes a JSON array
/// of signed 64-bit integers from the bytes, or fails on malformed
/// input. Which byte strings decode, and to what, depends on the bytes
/// alone; the relation is named `json_int_batch`.
#[verifier::external_body]
pub fn deserialize_json_body(bytes: &[u8]) -> (r: Option<Vec<i64>>)
    ensures
        (match r {
            Some(nums) => json_int_batch(bytes@) == Some(nums@),
            None => json_int_batch(bytes@) is None,
        }),
{
    serde_json::from_slice::<Vec<i64>>(bytes).ok()
}

/// Deserializer step of the request pipeline: decode the body bytes into
/// an ordered batch of signed 64-bit integers, or report a decode error.
pub fn deserialize_body(bytes: &[u8]) -> (r: Result<Vec<i64>, Error>)
    ensures
        (match r {
            Ok(nums) => json_int_batch(bytes@) == Some(nums@),
            Err(e) => json_int_batch(bytes@) is None && e == Error::Json,
        }),
{
    match deserialize_json_body(bytes) {
        Some(nums) => Ok(nums),
        None => Err(Error::Json),
    }
}

} // verus!
