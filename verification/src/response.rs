//! Response Builder: format a sum into the reply payload.
//!
//! Stateless and pure; formatting a valid 64-bit integer never fails.

use vstd::prelude::*;

verus! {

/// Status of a successful reply.
pub const STATUS_OK: u16 = 200;

/// Status of a reply to a malformed request body.
pub const STATUS_BAD_REQUEST: u16 = 400;

/// Status of a reply when the delay mechanism failed for this request.
pub const STATUS_SERVER_ERROR: u16 = 500;

/// Decimal digit bytes of `n`, most significant first.
pub open spec fn dec_digits(n: nat) -> Seq<u8>
    decreases n,
{
    if n < 10 {
        seq![(48 + n) as u8]
    } else {
        dec_digits(n / 10).push((48 + n % 10) as u8)
    }
}

/// ASCII decimal rendering of a signed 64-bit value, with a leading `-`
/// for negative values.
pub open spec fn dec_i64(v: i64) -> Seq<u8> {
    if v < 0 {
        seq![45u8] + dec_digits((-(v as int)) as nat)
    } else {
        dec_digits(v as nat)
    }
}

/// Reply body for a computed sum: the literal text `Sum: ` followed by
/// the decimal rendering of the sum.
pub open spec fn body_of_sum(sum: i64) -> Seq<u8> {
    seq![83u8, 117u8, 109u8, 58u8, 32u8] + dec_i64(sum)
}

/// Reply body for a malformed request.
pub open spec fn bad_request_body() -> Seq<u8> {
    seq![66u8, 97u8, 100u8, 32u8, 82u8, 101u8, 113u8, 117u8, 101u8, 115u8, 116u8]
}

/// Reply body when the delay mechanism failed.
pub open spec fn server_error_body() -> Seq<u8> {
    seq![84u8, 105u8, 109u8, 101u8, 114u8, 32u8, 69u8, 114u8, 114u8, 111u8, 114u8]
}

/// One reply: a status and a body, owned by the request's handling path
/// until handed over for transmission.
pub struct Response {
    pub status: u16,
    pub body: Vec<u8>,
}

/// Append the decimal digits of `n` to `out`.
fn push_dec(n: u64, out: &mut Vec<u8>)
    ensures
        final(out)@ == old(out)@ + dec_digits(n as nat),
    decreases n,
{
    if n < 10 {
        out.push(48 + n as u8);
        proof {
            assert(out@ =~= old(out)@ + dec_digits(n as nat));
        }
    } else {
        push_dec(n / 10, out);
        let d: u8 = (48 + n % 10) as u8;
        out.push(d);
        proof {
            assert((n / 10) as nat == n as nat / 10);
            assert((n % 10) as nat == n as nat % 10);
            assert(out@ =~= old(out)@ + dec_digits(n as nat));
        }
    }
}

/// Append the decimal rendering of `v` to `out`.
fn push_dec_i64(v: i64, out: &mut Vec<u8>)
    ensures
        final(out)@ == old(out)@ + dec_i64(v),
{
    if v < 0 {
        out.push(45);
        let magnitude: u64 = if v == i64::MIN {
            9223372036854775808
        } else {
            (-v) as u64
        };
        proof {
            assert(magnitude as nat == (-(v as int)) as nat);
        }
        push_dec(magnitude, out);
        proof {
            assert(out@ =~= old(out)@ + dec_i64(v));
        }
    } else {
        push_dec(v as u64, out);
        proof {
            assert((v as u64) as nat == v as nat);
        }
    }
}

/// Build the successful reply for a computed sum.
pub fn build_ok_response(sum: i64) -> (res: Response)
    ensures
        res.status == STATUS_OK,
        res.body@ == body_of_sum(sum),
{
    let mut body: Vec<u8> = Vec::new();
    body.push(83);
    body.push(117);
    body.push(109);
    body.push(58);
    body.push(32);
    proof {
        assert(body@ =~= seq![83u8, 117u8, 109u8, 58u8, 32u8]);
    }
    push_dec_i64(sum, &mut body);
    Response { status: STATUS_OK, body }
}

/// Build the client-error reply for a malformed request body.
pub fn bad_request_response() -> (res: Response)
    ensures
        res.status == STATUS_BAD_REQUEST,
        res.body@ == bad_request_body(),
{
    let mut body: Vec<u8> = Vec::new();
    body.push(66);
    body.push(97);
    body.push(100);
    body.push(32);
    body.push(82);
    body.push(101);
    body.push(113);
    body.push(117);
    body.push(101);
    body.push(115);
    body.push(116);
    proof {
        assert(body@ =~= bad_request_body());
    }
    Response { status: STATUS_BAD_REQUEST, body }
}

/// Build the per-request error reply for a failed delay mechanism.
pub fn server_error_response() -> (res: Response)
    ensures
        res.status == STATUS_SERVER_ERROR,
        res.body@ == server_error_body(),
{
    let mut body: Vec<u8> = Vec::new();
    body.push(84);
    body.push(105);
    body.push(109);
    body.push(101);
    body.push(114);
    body.push(32);
    body.push(69);
    body.push(114);
    body.push(114);
    body.push(111);
    body.push(114);
    proof {
        assert(body@ =~= server_error_body());
    }
    Response { status: STATUS_SERVER_ERROR, body }
}

} // verus!
