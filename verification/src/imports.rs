//! The host side of the four guest imports.
//!
//! The engine glue reads and writes guest linear memory; these functions do
//! everything else: they move bytes between the arena slot named by a
//! context id and the values the glue hands over, and they plan and complete
//! the outbound call a guest makes through `send_request`.

use vstd::prelude::*;

use crate::codec::{
    decode_request, encode_response, spec_decode_request, spec_encode_response, wf_response,
    Method, Request, Response, Scheme,
};
use crate::error::PodError;
use crate::instance::Instance;
use crate::uri::{parse_uri_parts, spec_authority, spec_parse_scheme};

verus! {

/// Serves `recall_request` and `recall_response`: returns the bytes the
/// guest asked to copy into linear memory, draining the slot to length zero
/// with its capacity kept.
pub fn recall_buffer(ins: &mut Instance, ctx_id: u64) -> (r: Vec<u8>)
    requires
        old(ins).wf(),
    ensures
        final(ins).wf(),
        r@ == old(ins).arena.bytes_of(ctx_id),
        final(ins).arena.has(ctx_id),
        final(ins).arena.bytes_of(ctx_id) == Seq::<u8>::empty(),
        final(ins).arena.cap_of(ctx_id) == old(ins).arena.cap_of(ctx_id),
        final(ins).arena.grows() == old(ins).arena.grows(),
        final(ins).spec_worker() == old(ins).spec_worker(),
        final(ins).spec_counter() == old(ins).spec_counter(),
        forall|o: u64|
            o != ctx_id ==> #[trigger] final(ins).arena.has(o) == old(ins).arena.has(o),
        forall|o: u64|
            o != ctx_id ==> #[trigger] final(ins).arena.bytes_of(o) == old(ins).arena.bytes_of(o),
{
    ins.arena.drain(ctx_id)
}

/// Serves `send_response`: stores the bytes the guest wrote (already copied
/// out of linear memory) as the context's buffer, and returns their count.
pub fn send_response(ins: &mut Instance, ctx_id: u64, data: Vec<u8>) -> (r: usize)
    requires
        old(ins).wf(),
        old(ins).arena.grows() + 2 <= u64::MAX,
    ensures
        final(ins).wf(),
        final(ins).arena.has(ctx_id),
        final(ins).arena.bytes_of(ctx_id) == data@,
        r == data@.len(),
        final(ins).spec_worker() == old(ins).spec_worker(),
        final(ins).spec_counter() == old(ins).spec_counter(),
        forall|o: u64|
            o != ctx_id ==> #[trigger] final(ins).arena.has(o) == old(ins).arena.has(o),
        forall|o: u64|
            o != ctx_id ==> #[trigger] final(ins).arena.bytes_of(o) == old(ins).arena.bytes_of(o),
{
    let n = data.len();
    let ghost dv = data@;
    let store = move |buf: Vec<u8>| -> (out: (Vec<u8>, usize))
        ensures
            out.0@ == dv && out.1 == dv.len(),
        {
            let m = data.len();
            (data, m)
        };
    ins.arena.with_mut(ctx_id, n, store)
}

/// Where an outbound request goes.
pub enum OutboundRoute {
    /// A synchronous HTTP or HTTPS call through the user agent.
    Http,
    /// A length-prefixed exchange with the named authority over TCP.
    Rpc(Vec<u8>),
}

/// An outbound request as handed to the transport glue: the decoded
/// request, its route, and whether a response is to be read back.
pub struct OutboundPlan {
    pub request: Request,
    pub route: OutboundRoute,
    pub expect_response: bool,
}

/// Plans the outbound call for `send_request`: decodes the bytes the guest
/// wrote as a request and routes it by its URI scheme. A `ONEWAY` request
/// never expects a response. `WNS` is reserved and carried by no transport.
pub fn outbound_plan(data: &Vec<u8>) -> (r: Result<OutboundPlan, PodError>)
    ensures
        match r {
            Ok(plan) => {
                &&& spec_decode_request(data@) == Some(plan.request@)
                &&& plan.expect_response == (plan.request@.method != Method::ONEWAY)
                &&& match plan.route {
                    OutboundRoute::Http => spec_parse_scheme(plan.request@.uri) == Some(
                        Scheme::HTTP,
                    ) || spec_parse_scheme(plan.request@.uri) == Some(Scheme::HTTPS),
                    OutboundRoute::Rpc(a) => spec_parse_scheme(plan.request@.uri) == Some(
                        Scheme::RPC,
                    ) && a@ == spec_authority(plan.request@.uri),
                }
            },
            Err(e) => match spec_decode_request(data@) {
                None => e == PodError::Decode,
                Some(req) => match spec_parse_scheme(req.uri) {
                    None => e == PodError::InvalidScheme,
                    Some(sch) => sch == Scheme::WNS && e == PodError::Unimplemented,
                },
            },
        },
{
    let request = match decode_request(data) {
        Some(req) => req,
        None => {
            return Err(PodError::Decode);
        },
    };
    let parts = match parse_uri_parts(&request.uri) {
        Ok(p) => p,
        Err(e) => {
            return Err(e);
        },
    };
    let route = match parts.scheme {
        Scheme::HTTP => OutboundRoute::Http,
        Scheme::HTTPS => OutboundRoute::Http,
        Scheme::RPC => OutboundRoute::Rpc(parts.authority),
        Scheme::WNS => {
            return Err(PodError::Unimplemented);
        },
    };
    let expect_response = match request.method {
        Method::ONEWAY => false,
        _ => true,
    };
    Ok(OutboundPlan { request, route, expect_response })
}

/// What the outbound transport brought back.
pub enum OutboundReply {
    /// A response arrived and decoded.
    Reply(Response),
    /// Nothing is to be stored: the request was `ONEWAY`, the scheme was
    /// carried by no transport, or the connection failed.
    NoReply,
}

/// Completes `send_request`: stores the encoded reply in the context's
/// buffer — or drains it when there is none — and returns the stored size,
/// zero for no reply.
pub fn outbound_complete(ins: &mut Instance, ctx_id: u64, reply: OutboundReply) -> (r: usize)
    requires
        old(ins).wf(),
        old(ins).arena.grows() + 2 <= u64::MAX,
        match reply {
            OutboundReply::Reply(resp) => wf_response(resp@),
            OutboundReply::NoReply => true,
        },
    ensures
        final(ins).wf(),
        final(ins).arena.has(ctx_id),
        final(ins).spec_worker() == old(ins).spec_worker(),
        final(ins).spec_counter() == old(ins).spec_counter(),
        match reply {
            OutboundReply::Reply(resp) => {
                &&& final(ins).arena.bytes_of(ctx_id) == spec_encode_response(resp@)
                &&& r == spec_encode_response(resp@).len()
            },
            OutboundReply::NoReply => {
                &&& final(ins).arena.bytes_of(ctx_id) == Seq::<u8>::empty()
                &&& r == 0
            },
        },
        forall|o: u64|
            o != ctx_id ==> #[trigger] final(ins).arena.has(o) == old(ins).arena.has(o),
        forall|o: u64|
            o != ctx_id ==> #[trigger] final(ins).arena.bytes_of(o) == old(ins).arena.bytes_of(o),
{
    match reply {
        OutboundReply::Reply(resp) => {
            let bytes = encode_response(&resp);
            send_response(ins, ctx_id, bytes)
        },
        OutboundReply::NoReply => {
            let _ = ins.arena.drain(ctx_id);
            0
        },
    }
}

} // verus!

verus! {

/// After `send_request` completes with a reply, the context's buffer is a
/// nonempty, valid encoding of that reply: decoding it gives the reply
/// back. With no reply the buffer is drained, as `outbound_complete`
/// states.
pub proof fn lemma_stored_reply_valid(resp: crate::codec::ResponseView)
    requires
        wf_response(resp),
    ensures
        crate::codec::spec_decode_response(spec_encode_response(resp)) == Some(resp),
        spec_encode_response(resp).len() >= 12,
{
    crate::codec::lemma_response_round_trip(resp);
}

} // verus!
