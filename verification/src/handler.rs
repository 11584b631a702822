//! Request Handler: Deserializer -> Compute Stage -> Response Builder
//! for exactly one request, strategy-agnostic.
//!
//! The Latency Stage and the placement of each step belong to the
//! dispatch engine; this module fixes what the reply says.

use vstd::prelude::*;

use crate::batch::sum_batch;
use crate::batch::sum_spec;
use crate::decode::deserialize_body;
use crate::decode::json_int_batch;
use crate::response::bad_request_body;
use crate::response::bad_request_response;
use crate::response::body_of_sum;
use crate::response::build_ok_response;
use crate::response::Response;
use crate::response::STATUS_BAD_REQUEST;
use crate::response::STATUS_OK;

verus! {

/// Status of the reply, as a function of the request bytes alone: 200
/// when the body decodes, 400 when it is malformed.
pub open spec fn status_of(bytes: Seq<u8>) -> u16 {
    if json_int_batch(bytes) is Some {
        STATUS_OK
    } else {
        STATUS_BAD_REQUEST
    }
}

/// Body of the reply, as a function of the request bytes alone:
/// `Sum: <sum>` of the decoded batch, or the client-error body.
pub open spec fn body_of(bytes: Seq<u8>) -> Seq<u8> {
    match json_int_batch(bytes) {
        Some(nums) => body_of_sum(sum_spec(nums)),
        None => bad_request_body(),
    }
}

/// Run the per-request pipeline on a fully buffered body: decode, sum,
/// build the reply. A malformed body yields the client-error reply;
/// this function is total and never panics.
pub fn handle_request(bytes: &[u8]) -> (res: Response)
    ensures
        res.status == status_of(bytes@),
        res.body@ == body_of(bytes@),
{
    match deserialize_body(bytes) {
        Ok(nums) => {
            let sum = sum_batch(&nums);
            build_ok_response(sum)
        },
        Err(_) => bad_request_response(),
    }
}

/// Idempotence: the reply is a function of the request bytes alone, so
/// issuing the same request twice yields the same status and body; no
/// state leaks across requests.
pub proof fn lemma_handler_idempotent(a: Seq<u8>, b: Seq<u8>)
    requires
        a == b,
    ensures
        status_of(a) == status_of(b),
        body_of(a) == body_of(b),
{
}

} // verus!
