use wasp::codec::{decode_request, decode_response, Method, Request, Response};
use wasp::dispatch::{begin_http_request, begin_raw_request, finish_request};
use wasp::error::PodError;
use wasp::frame::{check_frame_len, frame_encode, frame_header};
use wasp::guest::{handle_request, should_read_response, to_bytes};
use wasp::http::egress_status;
use wasp::imports::{
    outbound_complete, outbound_plan, recall_buffer, send_response, OutboundPlan, OutboundReply,
    OutboundRoute,
};
use wasp::instance::{guest_call_step, GuestCallAction, GuestCallOutcome, Instance};

/// Plays the guest for one request: recalls the request bytes, runs the
/// handler over them, and stores the encoded response, if any.
fn run_guest<F: FnOnce(u64, Request) -> Option<Response>>(
    ins: &mut Instance,
    ctx_id: u64,
    handler: F,
) {
    let req_bytes = recall_buffer(ins, ctx_id);
    if let Some(resp_bytes) = handle_request(ctx_id, req_bytes, handler) {
        let _ = send_response(ins, ctx_id, resp_bytes);
    }
}

#[test]
fn echo_http_round_trip() {
    // POST to "/" with body "ping"; the guest prefixes "pong"
    let mut ins = Instance::new(0);
    let mut req = Request::new();
    req.set_method(Method::POST);
    req.set_uri(b"/".to_vec());
    req.set_body(b"ping".to_vec());
    let (ctx_id, size) = begin_http_request(&mut ins, req);
    assert!(size > 0);
    run_guest(&mut ins, ctx_id, |_c, q| {
        assert_eq!(q.method, Method::POST);
        assert_eq!(q.body, b"ping".to_vec());
        let mut resp = Response::new();
        let mut body = b"pong".to_vec();
        body.extend_from_slice(&q.body);
        resp.set_body(body);
        Some(resp)
    });
    let resp = finish_request(&mut ins, ctx_id).expect("guest wrote a response");
    assert_eq!(egress_status(resp.status), 200);
    assert_eq!(resp.body, b"pongping".to_vec());
    // the slot was consumed
    assert!(ins.take_buffer(ctx_id).is_none());
}

#[test]
fn seqid_correlates_with_ctx_id() {
    let mut ins = Instance::new(3);
    let (ctx_id, _) = begin_http_request(&mut ins, Request::new());
    let stored = ins.take_buffer(ctx_id).expect("request stored");
    let req = decode_request(&stored.data).expect("stored bytes decode");
    assert_eq!(req.seqid, ctx_id as i32);
}

#[test]
fn nested_outbound_rpc() {
    // a guest handler, on HTTP input, calls out over RPC to its own pod
    let mut ins = Instance::new(0);
    let mut req = Request::new();
    req.set_method(Method::POST);
    req.set_uri(b"/outer".to_vec());
    req.set_body(b"outer-body".to_vec());
    let (outer_ctx, _) = begin_http_request(&mut ins, req);

    // the guest reads its request, then issues send_request
    let outer_req_bytes = recall_buffer(&mut ins, outer_ctx);
    let outer_req = decode_request(&outer_req_bytes).unwrap();
    let mut inner = Request::new();
    inner.set_method(Method::POST);
    inner.set_uri(b"rpc://127.0.0.1:9091/x".to_vec());
    inner.set_body(b"inner".to_vec());
    let (inner_bytes, _) = to_bytes(&inner);

    // host side of send_request: plan the outbound call
    let plan: OutboundPlan = outbound_plan(&inner_bytes).expect("plan");
    assert!(plan.expect_response);
    let authority = match &plan.route {
        OutboundRoute::Rpc(a) => a.clone(),
        OutboundRoute::Http => panic!("routed to the wrong transport"),
    };
    assert_eq!(authority, b"127.0.0.1:9091".to_vec());

    // the wire: length prefix plus payload, checked at the listener
    let framed = frame_encode(&inner_bytes);
    let claimed = frame_header(&framed, 0);
    assert!(check_frame_len(claimed));
    let payload = framed[4..].to_vec();
    assert_eq!(payload.len(), claimed as usize);

    // the pod's own RPC listener hands the payload to the same instance
    let (rpc_ctx, _) = begin_raw_request(&mut ins, payload);
    run_guest(&mut ins, rpc_ctx, |_c, q| {
        let mut resp = Response::new();
        let mut body = b"R:".to_vec();
        body.extend_from_slice(&q.body);
        resp.set_body(body);
        Some(resp)
    });
    let rpc_resp = finish_request(&mut ins, rpc_ctx).expect("rpc response");
    assert_eq!(rpc_resp.body, b"R:inner".to_vec());

    // back on the outbound side: the reply lands in the outer context's
    // buffer, and the guest recalls and forwards it
    let stored = outbound_complete(&mut ins, outer_ctx, OutboundReply::Reply(rpc_resp));
    assert!(stored > 0);
    assert!(should_read_response(inner.method, stored as i32));
    let reply_bytes = recall_buffer(&mut ins, outer_ctx);
    let reply = decode_response(&reply_bytes).unwrap();
    let mut final_resp = Response::new();
    final_resp.set_body(reply.body);
    final_resp.set_seqid(outer_req.seqid);
    let bytes = wasp::codec::encode_response(&final_resp);
    let _ = send_response(&mut ins, outer_ctx, bytes);

    let resp = finish_request(&mut ins, outer_ctx).expect("outer response");
    assert_eq!(resp.body, b"R:inner".to_vec());
    assert_eq!(egress_status(resp.status), 200);
}

#[test]
fn oneway_returns_zero_without_reading() {
    let mut ins = Instance::new(1);
    let (ctx_id, _) = begin_http_request(&mut ins, Request::new());
    let mut oneway = Request::new();
    oneway.set_method(Method::ONEWAY);
    oneway.set_uri(b"rpc://127.0.0.1:9091/fire".to_vec());
    oneway.set_body(b"and-forget".to_vec());
    let (bytes, _) = to_bytes(&oneway);
    let plan = outbound_plan(&bytes).expect("plan");
    assert!(!plan.expect_response);
    // the transport sends the frame and reads nothing back
    let stored = outbound_complete(&mut ins, ctx_id, OutboundReply::NoReply);
    assert_eq!(stored, 0);
    assert!(!should_read_response(Method::ONEWAY, 512));
    assert!(!should_read_response(Method::POST, 0));
    assert!(should_read_response(Method::POST, 512));
}

#[test]
fn outbound_plan_errors() {
    assert_eq!(outbound_plan(&b"not a request".to_vec()).err(), Some(PodError::Decode));
    let mut req = Request::new();
    req.set_uri(b"foo://x".to_vec());
    let (bytes, _) = to_bytes(&req);
    assert_eq!(outbound_plan(&bytes).err(), Some(PodError::InvalidScheme));
    let mut req = Request::new();
    req.set_uri(b"wns://x".to_vec());
    let (bytes, _) = to_bytes(&req);
    assert_eq!(outbound_plan(&bytes).err(), Some(PodError::Unimplemented));
}

#[test]
fn outbound_plan_routes_http() {
    let mut req = Request::new();
    req.set_uri(b"https://example.test/a".to_vec());
    let (bytes, _) = to_bytes(&req);
    let plan = outbound_plan(&bytes).expect("plan");
    assert!(matches!(plan.route, OutboundRoute::Http));
    assert!(plan.expect_response);
}

#[test]
fn malformed_guest_bytes_fail_decode() {
    let mut ins = Instance::new(2);
    let (ctx_id, _) = begin_raw_request(&mut ins, b"zz".to_vec());
    // the guest writes garbage through send_response
    let _ = send_response(&mut ins, ctx_id, b"garbage!".to_vec());
    assert_eq!(finish_request(&mut ins, ctx_id).err(), Some(PodError::Decode));
    assert!(ins.take_buffer(ctx_id).is_none());
}

#[test]
fn empty_guest_buffer_yields_default_response() {
    let mut ins = Instance::new(2);
    let (ctx_id, _) = begin_raw_request(&mut ins, b"anything".to_vec());
    // the guest recalls the request and never replies
    let _ = recall_buffer(&mut ins, ctx_id);
    let resp = finish_request(&mut ins, ctx_id).expect("default response");
    assert_eq!(resp.status, 0);
    assert_eq!(egress_status(resp.status), 200);
    assert!(resp.body.is_empty());
}

#[test]
fn guest_oom_recovers_once() {
    // first attempt traps out of memory: grow one page and retry
    assert_eq!(guest_call_step(false, GuestCallOutcome::TrapOom), GuestCallAction::GrowAndRetry);
    // the retried call completes: done
    assert_eq!(guest_call_step(true, GuestCallOutcome::Completed), GuestCallAction::Done);
    // a second out-of-memory trap is fatal for the request
    assert_eq!(guest_call_step(true, GuestCallOutcome::TrapOom), GuestCallAction::FailOom);
    // any other trap fails the request at once
    assert_eq!(guest_call_step(false, GuestCallOutcome::Trap), GuestCallAction::FailTrap);
    assert_eq!(guest_call_step(false, GuestCallOutcome::Completed), GuestCallAction::Done);
}
