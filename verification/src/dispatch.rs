//! The dispatcher's half of one inbound request: mint a context id, place
//! the encoded request in the instance's arena, and — after the guest call
//! returns — collect the response and offer the buffer for reuse.
//!
//! The guest call itself happens between `begin_http_request` (or
//! `begin_raw_request`) and `finish_request`, outside this crate.

use vstd::prelude::*;

use crate::codec::{
    decode_response, empty_response_view, spec_decode_response, spec_encode_request, wf_request,
    Request, RequestView, Response,
};
use crate::error::PodError;
use crate::imports::send_response;
use crate::instance::{spec_pack_ctx, Instance};

verus! {

/// The request as encoded at HTTP ingress: its sequence id set to the low
/// half of the context id, for correlation.
pub open spec fn spec_ingress_request(req: RequestView, ctx_id: u64) -> RequestView {
    RequestView { seqid: ctx_id as i32, ..req }
}

/// Begins one HTTP-ingress request: mints a context id, stamps it into the
/// request's sequence id, and places the encoded request in that context's
/// buffer. Returns the context id and the encoded size.
pub fn begin_http_request(ins: &mut Instance, req: Request) -> (r: (u64, usize))
    requires
        old(ins).wf(),
        old(ins).spec_counter() < u32::MAX,
        old(ins).arena.grows() + 2 <= u64::MAX,
        wf_request(req@),
    ensures
        final(ins).wf(),
        r.0 == spec_pack_ctx(old(ins).spec_worker(), old(ins).spec_counter()),
        final(ins).spec_counter() == old(ins).spec_counter() + 1,
        final(ins).spec_worker() == old(ins).spec_worker(),
        final(ins).arena.has(r.0),
        final(ins).arena.bytes_of(r.0) == spec_encode_request(spec_ingress_request(req@, r.0)),
        r.1 == spec_encode_request(spec_ingress_request(req@, r.0)).len(),
        forall|o: u64|
            o != r.0 ==> #[trigger] final(ins).arena.has(o) == old(ins).arena.has(o),
        forall|o: u64|
            o != r.0 ==> #[trigger] final(ins).arena.bytes_of(o) == old(ins).arena.bytes_of(o),
{
    let ghost a0 = ins.arena;
    let ctx_id = ins.gen_ctx_id();
    let mut req = req;
    req.set_seqid(#[verifier::truncate] (ctx_id as i32));
    let bytes = crate::codec::encode_request(&req);
    let size = send_response(ins, ctx_id, bytes);
    proof {
        assert forall|o: u64| o != ctx_id implies #[trigger] ins.arena.has(o) == a0.has(o) by {}
        assert forall|o: u64| o != ctx_id implies #[trigger] ins.arena.bytes_of(o) == a0.bytes_of(
            o,
        ) by {}
    }
    (ctx_id, size)
}

/// Begins one RPC-ingress request: the payload is already an encoded
/// request and goes into the fresh context's buffer verbatim.
pub fn begin_raw_request(ins: &mut Instance, data: Vec<u8>) -> (r: (u64, usize))
    requires
        old(ins).wf(),
        old(ins).spec_counter() < u32::MAX,
        old(ins).arena.grows() + 2 <= u64::MAX,
    ensures
        final(ins).wf(),
        r.0 == spec_pack_ctx(old(ins).spec_worker(), old(ins).spec_counter()),
        final(ins).spec_counter() == old(ins).spec_counter() + 1,
        final(ins).spec_worker() == old(ins).spec_worker(),
        final(ins).arena.has(r.0),
        final(ins).arena.bytes_of(r.0) == data@,
        r.1 == data@.len(),
        forall|o: u64|
            o != r.0 ==> #[trigger] final(ins).arena.has(o) == old(ins).arena.has(o),
        forall|o: u64|
            o != r.0 ==> #[trigger] final(ins).arena.bytes_of(o) == old(ins).arena.bytes_of(o),
{
    let ctx_id = ins.gen_ctx_id();
    let size = send_response(ins, ctx_id, data);
    (ctx_id, size)
}

/// Ends one request after the guest call returned: takes the context's
/// buffer, decodes it as a response — an empty or absent buffer stands for
/// the default response — and offers the buffer for reuse under the next
/// context id. The slot at `ctx_id` is left empty.
pub fn finish_request(ins: &mut Instance, ctx_id: u64) -> (r: Result<Response, PodError>)
    requires
        old(ins).wf(),
        ctx_id != spec_pack_ctx(old(ins).spec_worker(), old(ins).spec_counter()),
    ensures
        final(ins).wf(),
        !final(ins).arena.has(ctx_id),
        final(ins).spec_counter() == old(ins).spec_counter(),
        final(ins).spec_worker() == old(ins).spec_worker(),
        forall|o: u64|
            o != ctx_id && o != spec_pack_ctx(old(ins).spec_worker(), old(ins).spec_counter())
                ==> #[trigger] final(ins).arena.has(o) == old(ins).arena.has(o),
        forall|o: u64|
            o != ctx_id && o != spec_pack_ctx(old(ins).spec_worker(), old(ins).spec_counter())
                ==> #[trigger] final(ins).arena.bytes_of(o) == old(ins).arena.bytes_of(o),
        ({
            let next = spec_pack_ctx(old(ins).spec_worker(), old(ins).spec_counter());
            &&& (old(ins).arena.has(ctx_id) && !old(ins).arena.has(next) ==> {
                &&& final(ins).arena.has(next)
                &&& final(ins).arena.bytes_of(next) == old(ins).arena.bytes_of(ctx_id)
                &&& final(ins).arena.cap_of(next) == old(ins).arena.cap_of(ctx_id)
            })
            &&& (old(ins).arena.has(next) ==> final(ins).arena.bytes_of(next) == old(ins).arena.bytes_of(next))
        }),
        match r {
            Ok(resp) => ({
                let bytes = old(ins).arena.bytes_of(ctx_id);
                if bytes.len() == 0 {
                    resp@ == empty_response_view()
                } else {
                    spec_decode_response(bytes) == Some(resp@)
                }
            }),
            Err(e) => ({
                let bytes = old(ins).arena.bytes_of(ctx_id);
                &&& e == PodError::Decode
                &&& bytes.len() > 0
                &&& spec_decode_response(bytes) is None
            }),
        },
{
    let taken = ins.take_buffer(ctx_id);
    match taken {
        None => Ok(Response::new()),
        Some(buf) => {
            if buf.data.len() == 0 {
                ins.try_reuse_buffer(buf);
                Ok(Response::new())
            } else {
                let decoded = decode_response(&buf.data);
                ins.try_reuse_buffer(buf);
                match decoded {
                    Some(resp) => Ok(resp),
                    None => Err(PodError::Decode),
                }
            }
        },
    }
}

} // verus!
