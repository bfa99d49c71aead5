use wasp::codec::{
    decode_request, decode_response, encode_request, encode_response, method_tag, tag_method,
    Method, Request, Response, Scheme,
};
use wasp::error::PodError;
use wasp::frame::{conn_step, ConnAction, FrameReadEvent};
use wasp::frame::{check_frame_len, frame_encode, frame_header, MAX_FRAME_LEN};
use wasp::http::{egress_status, method_from_name, wire_method};
use wasp::uri::{parse_scheme, parse_uri_parts};

fn sample_request() -> Request {
    let mut req = Request::new();
    req.set_seqid(7);
    req.set_method(Method::POST);
    req.set_uri(b"http://example.test/echo".to_vec());
    req.set_header(b"content-type".to_vec(), b"text/plain".to_vec());
    req.set_header(b"x-trace".to_vec(), b"abc123".to_vec());
    req.set_body(b"ping".to_vec());
    req
}

#[test]
fn request_round_trip() {
    let req = sample_request();
    let bytes = encode_request(&req);
    let back = decode_request(&bytes).expect("round trip decodes");
    assert_eq!(back.seqid, 7);
    assert_eq!(back.method, Method::POST);
    assert_eq!(back.uri, b"http://example.test/echo".to_vec());
    assert_eq!(back.headers.len(), 2);
    assert_eq!(back.headers[0].0, b"content-type".to_vec());
    assert_eq!(back.headers[0].1, b"text/plain".to_vec());
    assert_eq!(back.headers[1].0, b"x-trace".to_vec());
    assert_eq!(back.headers[1].1, b"abc123".to_vec());
    assert_eq!(back.body, b"ping".to_vec());
}

#[test]
fn response_round_trip() {
    let mut resp = Response::new();
    resp.set_seqid(-3);
    resp.set_status(404);
    resp.set_header(b"server".to_vec(), b"pod".to_vec());
    resp.set_body(b"missing".to_vec());
    let bytes = encode_response(&resp);
    let back = decode_response(&bytes).expect("round trip decodes");
    assert_eq!(back.seqid, -3);
    assert_eq!(back.status, 404);
    assert_eq!(back.headers, vec![(b"server".to_vec(), b"pod".to_vec())]);
    assert_eq!(back.body, b"missing".to_vec());
}

#[test]
fn request_exact_bytes() {
    let mut req = Request::new();
    req.set_seqid(1);
    req.set_uri(b"a".to_vec());
    req.set_body(b"b".to_vec());
    let bytes = encode_request(&req);
    let expected: Vec<u8> = vec![
        1, 0, 0, 0, // seqid
        0, // method tag: GET
        1, 0, 0, 0, 0x61, // uri
        0, 0, 0, 0, // header count
        1, 0, 0, 0, 0x62, // body
    ];
    assert_eq!(bytes, expected);
}

#[test]
fn decode_rejects_truncated_and_trailing_bytes() {
    let req = sample_request();
    let mut bytes = encode_request(&req);
    let last = bytes.pop().unwrap();
    assert!(decode_request(&bytes).is_none());
    bytes.push(last);
    bytes.push(0);
    assert!(decode_request(&bytes).is_none());
    assert!(decode_request(&vec![]).is_none());
}

#[test]
fn decode_rejects_unknown_method_tag() {
    let mut req = Request::new();
    req.set_uri(b"/".to_vec());
    let mut bytes = encode_request(&req);
    bytes[4] = 99;
    assert!(decode_request(&bytes).is_none());
}

#[test]
fn method_tags_round_trip() {
    let methods = [
        Method::GET,
        Method::HEAD,
        Method::POST,
        Method::PUT,
        Method::DELETE,
        Method::CONNECT,
        Method::OPTIONS,
        Method::TRACE,
        Method::PATCH,
        Method::ONEWAY,
    ];
    for m in methods {
        assert_eq!(tag_method(method_tag(m)), Some(m));
    }
    assert_eq!(tag_method(10), None);
}

#[test]
fn scheme_cases() {
    assert_eq!(parse_scheme(&b"http://x".to_vec()), Ok(Scheme::HTTP));
    assert_eq!(parse_scheme(&b"HTTPS://x".to_vec()), Ok(Scheme::HTTPS));
    assert_eq!(parse_scheme(&b"rpc://x".to_vec()), Ok(Scheme::RPC));
    assert_eq!(parse_scheme(&b"/".to_vec()), Ok(Scheme::HTTP));
    assert_eq!(parse_scheme(&b"foo://x".to_vec()), Err(PodError::InvalidScheme));
}

#[test]
fn scheme_more_cases() {
    assert_eq!(parse_scheme(&b"wns://x".to_vec()), Ok(Scheme::WNS));
    assert_eq!(parse_scheme(&b"://x".to_vec()), Ok(Scheme::HTTP));
    assert_eq!(parse_scheme(&b"Rpc://x".to_vec()), Ok(Scheme::RPC));
    assert_eq!(parse_scheme(&b"/path".to_vec()), Err(PodError::InvalidScheme));
    let req = {
        let mut r = Request::new();
        r.set_uri(b"rpc://h:1/x".to_vec());
        r
    };
    assert_eq!(req.get_scheme(), Ok(Scheme::RPC));
}

#[test]
fn uri_parts() {
    let parts = parse_uri_parts(&b"rpc://127.0.0.1:9091/x".to_vec()).unwrap();
    assert_eq!(parts.scheme, Scheme::RPC);
    assert_eq!(parts.authority, b"127.0.0.1:9091".to_vec());
    assert_eq!(parts.path, b"/x".to_vec());
    let parts = parse_uri_parts(&b"http://h".to_vec()).unwrap();
    assert_eq!(parts.authority, b"h".to_vec());
    assert_eq!(parts.path, b"".to_vec());
    let parts = parse_uri_parts(&b"/only".to_vec());
    assert!(parts.is_err());
    let parts = parse_uri_parts(&b"/".to_vec()).unwrap();
    assert_eq!(parts.authority, b"".to_vec());
    assert_eq!(parts.path, b"/".to_vec());
}

#[test]
fn frame_round_trip() {
    let payload = b"hello rpc".to_vec();
    let framed = frame_encode(&payload);
    assert_eq!(&framed[0..4], &[9, 0, 0, 0]);
    let len = frame_header(&framed, 0);
    assert_eq!(len, 9);
    assert!(check_frame_len(len));
    assert_eq!(&framed[4..], payload.as_slice());
}

#[test]
fn frame_oversize_rejected() {
    // a claimed length of 128 MiB + 1 closes the connection
    let claimed: i32 = 0x0800_0001;
    assert!(!check_frame_len(claimed));
    assert!(check_frame_len(MAX_FRAME_LEN as i32));
    assert!(check_frame_len(0));
    assert!(!check_frame_len(-1));
    let header = vec![0x01, 0x00, 0x00, 0x08];
    assert_eq!(frame_header(&header, 0), claimed);
}

#[test]
fn http_method_mapping() {
    assert_eq!(method_from_name(&b"POST".to_vec()), Method::POST);
    assert_eq!(method_from_name(&b"DELETE".to_vec()), Method::DELETE);
    assert_eq!(method_from_name(&b"BREW".to_vec()), Method::GET);
    assert_eq!(wire_method(Method::ONEWAY), Method::GET);
    assert_eq!(wire_method(Method::PUT), Method::PUT);
    assert_eq!(Method::ONEWAY.as_str(), "GET");
    assert_eq!(Method::PATCH.as_str(), "PATCH");
}

#[test]
fn http_status_egress() {
    assert_eq!(egress_status(0), 200);
    assert_eq!(egress_status(-7), 200);
    assert_eq!(egress_status(503), 503);
}

#[test]
fn it_works() {
    let result = 2 + 2;
    assert_eq!(result, 4);
}

#[test]
fn conn_loop_decisions() {
    assert_eq!(conn_step(FrameReadEvent::Eof), ConnAction::YieldAndRetry);
    assert_eq!(conn_step(FrameReadEvent::IoError), ConnAction::Close);
    assert_eq!(conn_step(FrameReadEvent::Header(5)), ConnAction::ReadPayload(5));
    assert_eq!(conn_step(FrameReadEvent::Header(0x0800_0001)), ConnAction::Close);
    assert_eq!(conn_step(FrameReadEvent::Header(-1)), ConnAction::Close);
}

#[test]
fn to_bytes_matches_encoding() {
    let req = sample_request();
    let (bytes, n) = wasp::guest::to_bytes(&req);
    assert_eq!(bytes, encode_request(&req));
    assert_eq!(n, bytes.len());
}

#[test]
fn wf_checks_accept_ordinary_records() {
    let req = sample_request();
    assert!(wasp::codec::check_wf_request(&req));
    let mut resp = Response::new();
    resp.set_header(b"k".to_vec(), b"v".to_vec());
    assert!(wasp::codec::check_wf_response(&resp));
}
