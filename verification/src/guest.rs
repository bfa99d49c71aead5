//! The guest side of the call protocol, as far as it computes on plain
//! values: turning received bytes into a request, a handler's response into
//! bytes, and deciding when an outbound call reads a response back.
//!
//! The copies through linear memory and the calls into the host imports are
//! glue outside this crate.

use vstd::prelude::*;

use crate::codec::{
    decode_request, empty_request_view, encode_request, encode_response, spec_decode_request,
    spec_encode_request, spec_encode_response, wf_request, wf_response, Method, Request,
    RequestView, Response,
};

verus! {

/// The request a guest sees for `size` received bytes: decoded when they
/// decode, the default request otherwise (also for an empty buffer).
pub open spec fn spec_guest_request(bytes: Seq<u8>) -> RequestView {
    if bytes.len() == 0 {
        empty_request_view()
    } else {
        match spec_decode_request(bytes) {
            Some(v) => v,
            None => empty_request_view(),
        }
    }
}

/// Runs a guest handler over received request bytes: the bytes are decoded
/// (malformed or empty input becomes the default request), the handler runs,
/// and its response — when it gives one — is encoded for `send_response`.
pub fn handle_request<F: FnOnce(u64, Request) -> Option<Response>>(
    ctx_id: u64,
    req_bytes: Vec<u8>,
    handler: F,
) -> (r: Option<Vec<u8>>)
    requires
        forall|c: u64, q: Request| call_requires(handler, (c, q)),
        forall|c: u64, q: Request, out: Option<Response>|
            #[trigger] call_ensures(handler, (c, q), out) ==> match out {
                Some(resp) => wf_response(resp@),
                None => true,
            },
    ensures
        exists|q: Request, out: Option<Response>|
            {
                &&& q@ == spec_guest_request(req_bytes@)
                &&& #[trigger] call_ensures(handler, (ctx_id, q), out)
                &&& match (out, r) {
                    (Some(resp), Some(bytes)) => bytes@ == spec_encode_response(resp@),
                    (None, None) => true,
                    _ => false,
                }
            },
{
    let req = if req_bytes.len() == 0 {
        Request::new()
    } else {
        match decode_request(&req_bytes) {
            Some(q) => q,
            None => Request::new(),
        }
    };
    let out = handler(ctx_id, req);
    match out {
        Some(resp) => {
            let bytes = encode_response(&resp);
            Some(bytes)
        },
        None => None,
    }
}

/// Whether an outbound call is to read a response back: never for `ONEWAY`,
/// and never when the host reported no stored reply.
pub fn should_read_response(method: Method, size: i32) -> (r: bool)
    ensures
        r == (size > 0 && method != Method::ONEWAY),
{
    size > 0 && !matches!(method, Method::ONEWAY)
}

/// Encodes a request for the wire and returns the bytes with their count.
pub fn to_bytes(req: &Request) -> (r: (Vec<u8>, usize))
    requires
        wf_request(req@),
    ensures
        r.0@ == spec_encode_request(req@),
        r.1 == r.0@.len(),
{
    let bytes = encode_request(req);
    let n = bytes.len();
    (bytes, n)
}

} // verus!
