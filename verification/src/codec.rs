//! The record codec: `Request` and `Response` values and their binary wire
//! form.
//!
//! A record is encoded field by field in a fixed order; every variable-length
//! field carries a four-byte little-endian length prefix. Decoding a record's
//! own encoding gives the record back; see `lemma_request_round_trip` and
//! `lemma_response_round_trip`.

use vstd::prelude::*;

use crate::wire::{push_le32, read_le32, spec_from_le32, spec_le32, lemma_le32_round_trip};

verus! {

/// The request method carried on the wire. `ONEWAY` marks a request whose
/// sender expects no response.
#[derive(Clone, Copy, Debug, PartialEq, Eq, Structural)]
pub enum Method {
    GET,
    HEAD,
    POST,
    PUT,
    DELETE,
    CONNECT,
    OPTIONS,
    TRACE,
    PATCH,
    ONEWAY,
}

/// The transport selected by a URI prefix. `WNS` is reserved; no transport
/// implements it.
#[derive(Clone, Copy, Debug, PartialEq, Eq, Structural)]
pub enum Scheme {
    HTTP,
    HTTPS,
    RPC,
    WNS,
}

/// An inbound or outbound service request.
#[derive(Debug, Clone)]
pub struct Request {
    pub seqid: i32,
    pub method: Method,
    pub uri: Vec<u8>,
    pub headers: Vec<(Vec<u8>, Vec<u8>)>,
    pub body: Vec<u8>,
}

/// A service response.
#[derive(Debug, Clone)]
pub struct Response {
    pub seqid: i32,
    pub status: i32,
    pub headers: Vec<(Vec<u8>, Vec<u8>)>,
    pub body: Vec<u8>,
}

/// The mathematical value of a `Request`.
pub ghost struct RequestView {
    pub seqid: i32,
    pub method: Method,
    pub uri: Seq<u8>,
    pub headers: Seq<(Seq<u8>, Seq<u8>)>,
    pub body: Seq<u8>,
}

/// The mathematical value of a `Response`.
pub ghost struct ResponseView {
    pub seqid: i32,
    pub status: i32,
    pub headers: Seq<(Seq<u8>, Seq<u8>)>,
    pub body: Seq<u8>,
}

/// The views of a header list.
pub open spec fn headers_view(hs: Seq<(Vec<u8>, Vec<u8>)>) -> Seq<(Seq<u8>, Seq<u8>)> {
    hs.map_values(|p: (Vec<u8>, Vec<u8>)| (p.0@, p.1@))
}

impl View for Request {
    type V = RequestView;

    open spec fn view(&self) -> RequestView {
        RequestView {
            seqid: self.seqid,
            method: self.method,
            uri: self.uri@,
            headers: headers_view(self.headers@),
            body: self.body@,
        }
    }
}

impl View for Response {
    type V = ResponseView;

    open spec fn view(&self) -> ResponseView {
        ResponseView {
            seqid: self.seqid,
            status: self.status,
            headers: headers_view(self.headers@),
            body: self.body@,
        }
    }
}

/// Every variable-length field fits its four-byte length prefix.
pub open spec fn wf_headers(hs: Seq<(Seq<u8>, Seq<u8>)>) -> bool {
    &&& hs.len() <= u32::MAX
    &&& forall|i: int|
        0 <= i < hs.len() ==> (#[trigger] hs[i]).0.len() <= u32::MAX && hs[i].1.len() <= u32::MAX
}

/// A request the codec can represent on the wire.
pub open spec fn wf_request(r: RequestView) -> bool {
    &&& r.uri.len() <= u32::MAX
    &&& r.body.len() <= u32::MAX
    &&& wf_headers(r.headers)
}

/// A response the codec can represent on the wire.
pub open spec fn wf_response(r: ResponseView) -> bool {
    &&& r.body.len() <= u32::MAX
    &&& wf_headers(r.headers)
}

/// The wire tag of a method.
pub open spec fn spec_method_tag(m: Method) -> u8 {
    match m {
        Method::GET => 0,
        Method::HEAD => 1,
        Method::POST => 2,
        Method::PUT => 3,
        Method::DELETE => 4,
        Method::CONNECT => 5,
        Method::OPTIONS => 6,
        Method::TRACE => 7,
        Method::PATCH => 8,
        Method::ONEWAY => 9,
    }
}

/// The method of a wire tag, if the tag is assigned.
pub open spec fn spec_tag_method(t: u8) -> Option<Method> {
    if t == 0 {
        Some(Method::GET)
    } else if t == 1 {
        Some(Method::HEAD)
    } else if t == 2 {
        Some(Method::POST)
    } else if t == 3 {
        Some(Method::PUT)
    } else if t == 4 {
        Some(Method::DELETE)
    } else if t == 5 {
        Some(Method::CONNECT)
    } else if t == 6 {
        Some(Method::OPTIONS)
    } else if t == 7 {
        Some(Method::TRACE)
    } else if t == 8 {
        Some(Method::PATCH)
    } else if t == 9 {
        Some(Method::ONEWAY)
    } else {
        None
    }
}

/// Every method's tag reads back as that method.
pub proof fn lemma_method_tag_round_trip(m: Method)
    ensures
        spec_tag_method(spec_method_tag(m)) == Some(m),
{
}

/// A byte string with its length prefix.
pub open spec fn spec_lp(b: Seq<u8>) -> Seq<u8> {
    spec_le32(b.len() as u32) + b
}

/// The encoding of a header list: each key and value length-prefixed, in
/// order.
pub open spec fn spec_enc_headers(hs: Seq<(Seq<u8>, Seq<u8>)>) -> Seq<u8>
    decreases hs.len(),
{
    if hs.len() == 0 {
        Seq::empty()
    } else {
        spec_lp(hs[0].0) + spec_lp(hs[0].1) + spec_enc_headers(hs.drop_first())
    }
}

/// The wire form of a request: seqid, method tag, uri, header count,
/// headers, body.
pub open spec fn spec_encode_request(r: RequestView) -> Seq<u8> {
    spec_le32(r.seqid as u32) + seq![spec_method_tag(r.method)] + spec_lp(r.uri) + spec_le32(
        r.headers.len() as u32,
    ) + spec_enc_headers(r.headers) + spec_lp(r.body)
}

/// The wire form of a response: seqid, status, header count, headers, body.
pub open spec fn spec_encode_response(r: ResponseView) -> Seq<u8> {
    spec_le32(r.seqid as u32) + spec_le32(r.status as u32) + spec_le32(r.headers.len() as u32)
        + spec_enc_headers(r.headers) + spec_lp(r.body)
}

/// Appending one header pair extends the encoding at its end.
pub proof fn lemma_enc_headers_push(hs: Seq<(Seq<u8>, Seq<u8>)>, p: (Seq<u8>, Seq<u8>))
    ensures
        spec_enc_headers(hs.push(p)) == spec_enc_headers(hs) + spec_lp(p.0) + spec_lp(p.1),
    decreases hs.len(),
{
    let e = Seq::<(Seq<u8>, Seq<u8>)>::empty();
    if hs.len() == 0 {
        assert(hs.push(p)[0] == p);
        assert(hs.push(p).drop_first() =~= e);
        assert(spec_enc_headers(e) == Seq::<u8>::empty());
        assert(spec_enc_headers(hs.push(p)) == spec_lp(p.0) + spec_lp(p.1) + spec_enc_headers(e));
        assert(spec_enc_headers(hs.push(p)) =~= spec_enc_headers(hs) + spec_lp(p.0) + spec_lp(p.1));
    } else {
        assert(hs.push(p).drop_first() =~= hs.drop_first().push(p));
        lemma_enc_headers_push(hs.drop_first(), p);
        assert(hs.push(p)[0] == hs[0]);
        assert(spec_enc_headers(hs.push(p)) == spec_lp(hs[0].0) + spec_lp(hs[0].1)
            + spec_enc_headers(hs.drop_first().push(p)));
        assert(spec_enc_headers(hs) == spec_lp(hs[0].0) + spec_lp(hs[0].1) + spec_enc_headers(
            hs.drop_first(),
        ));
        assert(spec_enc_headers(hs.push(p)) =~= spec_enc_headers(hs) + spec_lp(p.0) + spec_lp(p.1));
    }
}

/// The wire tag of a method.
pub fn method_tag(m: Method) -> (r: u8)
    ensures
        r == spec_method_tag(m),
{
    match m {
        Method::GET => 0,
        Method::HEAD => 1,
        Method::POST => 2,
        Method::PUT => 3,
        Method::DELETE => 4,
        Method::CONNECT => 5,
        Method::OPTIONS => 6,
        Method::TRACE => 7,
        Method::PATCH => 8,
        Method::ONEWAY => 9,
    }
}

/// The method of a wire tag, if the tag is assigned.
pub fn tag_method(t: u8) -> (r: Option<Method>)
    ensures
        r == spec_tag_method(t),
{
    if t == 0 {
        Some(Method::GET)
    } else if t == 1 {
        Some(Method::HEAD)
    } else if t == 2 {
        Some(Method::POST)
    } else if t == 3 {
        Some(Method::PUT)
    } else if t == 4 {
        Some(Method::DELETE)
    } else if t == 5 {
        Some(Method::CONNECT)
    } else if t == 6 {
        Some(Method::OPTIONS)
    } else if t == 7 {
        Some(Method::TRACE)
    } else if t == 8 {
        Some(Method::PATCH)
    } else if t == 9 {
        Some(Method::ONEWAY)
    } else {
        None
    }
}

/// Appends all of `b` to `out`.
pub fn push_bytes(out: &mut Vec<u8>, b: &Vec<u8>)
    ensures
        final(out)@ == old(out)@ + b@,
{
    let n = b.len();
    let mut i: usize = 0;
    while i < n
        invariant
            i <= n,
            n == b@.len(),
            out@ == old(out)@ + b@.take(i as int),
        decreases n - i,
    {
        out.push(b[i]);
        assert(b@.take(i + 1) =~= b@.take(i as int).push(b@[i as int]));
        i += 1;
    }
    assert(b@.take(n as int) =~= b@);
}

/// Appends `b` with its length prefix to `out`.
pub fn push_lp(out: &mut Vec<u8>, b: &Vec<u8>)
    requires
        b@.len() <= u32::MAX,
    ensures
        final(out)@ == old(out)@ + spec_lp(b@),
{
    let n = b.len();
    push_le32(out, n as u32);
    push_bytes(out, b);
    assert(out@ =~= old(out)@ + spec_lp(b@));
}

/// Appends the header-list encoding to `out`.
fn push_headers(out: &mut Vec<u8>, hs: &Vec<(Vec<u8>, Vec<u8>)>)
    requires
        wf_headers(headers_view(hs@)),
    ensures
        final(out)@ == old(out)@ + spec_enc_headers(headers_view(hs@)),
{
    let n = hs.len();
    let ghost hv = headers_view(hs@);
    let mut i: usize = 0;
    assert(spec_enc_headers(hv.take(0)) =~= Seq::<u8>::empty());
    while i < n
        invariant
            i <= n,
            n == hs@.len(),
            hv == headers_view(hs@),
            hv.len() == n,
            wf_headers(hv),
            out@ == old(out)@ + spec_enc_headers(hv.take(i as int)),
        decreases n - i,
    {
        assert(hv[i as int] == (hs@[i as int].0@, hs@[i as int].1@));
        push_lp(out, &hs[i].0);
        push_lp(out, &hs[i].1);
        proof {
            lemma_enc_headers_push(hv.take(i as int), hv[i as int]);
            assert(hv.take(i + 1) =~= hv.take(i as int).push(hv[i as int]));
        }
        i += 1;
    }
    assert(hv.take(n as int) =~= hv);
}

/// Encodes `r` into its wire form.
pub fn encode_request(r: &Request) -> (out: Vec<u8>)
    requires
        wf_request(r@),
    ensures
        out@ == spec_encode_request(r@),
{
    let mut out: Vec<u8> = Vec::new();
    push_le32(&mut out, r.seqid as u32);
    out.push(method_tag(r.method));
    assert(out@ =~= spec_le32(r.seqid as u32) + seq![spec_method_tag(r.method)]);
    push_lp(&mut out, &r.uri);
    let hn = r.headers.len();
    push_le32(&mut out, hn as u32);
    push_headers(&mut out, &r.headers);
    push_lp(&mut out, &r.body);
    assert(out@ =~= spec_encode_request(r@));
    out
}

/// Encodes `r` into its wire form.
pub fn encode_response(r: &Response) -> (out: Vec<u8>)
    requires
        wf_response(r@),
    ensures
        out@ == spec_encode_response(r@),
{
    let mut out: Vec<u8> = Vec::new();
    push_le32(&mut out, r.seqid as u32);
    push_le32(&mut out, r.status as u32);
    let hn = r.headers.len();
    push_le32(&mut out, hn as u32);
    push_headers(&mut out, &r.headers);
    push_lp(&mut out, &r.body);
    assert(out@ =~= spec_encode_response(r@));
    out
}

} // verus!

verus! {

/// Reads one byte at `i`.
pub open spec fn rd_u8(s: Seq<u8>, i: int) -> Option<(u8, int)> {
    if 0 <= i && i + 1 <= s.len() {
        Some((s[i], i + 1))
    } else {
        None
    }
}

/// Reads a little-endian 32-bit value at `i`.
pub open spec fn rd_u32(s: Seq<u8>, i: int) -> Option<(u32, int)> {
    if 0 <= i && i + 4 <= s.len() {
        Some((spec_from_le32(s.subrange(i, i + 4)), i + 4))
    } else {
        None
    }
}

/// Reads a length-prefixed byte string at `i`.
pub open spec fn rd_bytes(s: Seq<u8>, i: int) -> Option<(Seq<u8>, int)> {
    match rd_u32(s, i) {
        Some((n, j)) => if j + n <= s.len() {
            Some((s.subrange(j, j + n), j + n))
        } else {
            None
        },
        None => None,
    }
}

/// Reads `count` header pairs at `i`.
pub open spec fn rd_headers(s: Seq<u8>, i: int, count: nat) -> Option<
    (Seq<(Seq<u8>, Seq<u8>)>, int),
>
    decreases count,
{
    if count == 0 {
        Some((Seq::empty(), i))
    } else {
        match rd_bytes(s, i) {
            Some((k, j)) => match rd_bytes(s, j) {
                Some((v, l)) => match rd_headers(s, l, (count - 1) as nat) {
                    Some((hs, e)) => Some((seq![(k, v)] + hs, e)),
                    None => None,
                },
                None => None,
            },
            None => None,
        }
    }
}

/// The request denoted by `s`, if `s` is exactly one encoded request.
pub open spec fn spec_decode_request(s: Seq<u8>) -> Option<RequestView> {
    match rd_u32(s, 0) {
        Some((sq, i1)) => match rd_u8(s, i1) {
            Some((t, i2)) => match spec_tag_method(t) {
                Some(m) => match rd_bytes(s, i2) {
                    Some((uri, i3)) => match rd_u32(s, i3) {
                        Some((hc, i4)) => match rd_headers(s, i4, hc as nat) {
                            Some((hs, i5)) => match rd_bytes(s, i5) {
                                Some((body, i6)) => if i6 == s.len() {
                                    Some(
                                        RequestView {
                                            seqid: sq as i32,
                                            method: m,
                                            uri,
                                            headers: hs,
                                            body,
                                        },
                                    )
                                } else {
                                    None
                                },
                                None => None,
                            },
                            None => None,
                        },
                        None => None,
                    },
                    None => None,
                },
                None => None,
            },
            None => None,
        },
        None => None,
    }
}

/// The response denoted by `s`, if `s` is exactly one encoded response.
pub open spec fn spec_decode_response(s: Seq<u8>) -> Option<ResponseView> {
    match rd_u32(s, 0) {
        Some((sq, i1)) => match rd_u32(s, i1) {
            Some((st, i2)) => match rd_u32(s, i2) {
                Some((hc, i3)) => match rd_headers(s, i3, hc as nat) {
                    Some((hs, i4)) => match rd_bytes(s, i4) {
                        Some((body, i5)) => if i5 == s.len() {
                            Some(
                                ResponseView {
                                    seqid: sq as i32,
                                    status: st as i32,
                                    headers: hs,
                                    body,
                                },
                            )
                        } else {
                            None
                        },
                        None => None,
                    },
                    None => None,
                },
                None => None,
            },
            None => None,
        },
        None => None,
    }
}

/// Reads a little-endian 32-bit value, if four bytes are available.
pub fn take_u32(s: &Vec<u8>, i: usize) -> (r: Option<(u32, usize)>)
    ensures
        match r {
            Some(p) => rd_u32(s@, i as int) == Some((p.0, p.1 as int)) && p.1 == i + 4,
            None => rd_u32(s@, i as int) is None,
        },
{
    if s.len() >= 4 && i <= s.len() - 4 {
        let n = read_le32(s, i);
        Some((n, i + 4))
    } else {
        None
    }
}

/// Reads a length-prefixed byte string, if it lies within `s`.
pub fn take_bytes(s: &Vec<u8>, i: usize) -> (r: Option<(Vec<u8>, usize)>)
    ensures
        match r {
            Some(p) => rd_bytes(s@, i as int) == Some((p.0@, p.1 as int)),
            None => rd_bytes(s@, i as int) is None,
        },
{
    match take_u32(s, i) {
        None => None,
        Some((n, j)) => {
            let nn = n as usize;
            if nn <= s.len() - j {
                let end = j + nn;
                let mut b: Vec<u8> = Vec::new();
                let mut k = j;
                while k < end
                    invariant
                        j <= k <= end,
                        end <= s@.len(),
                        b@ == s@.subrange(j as int, k as int),
                    decreases end - k,
                {
                    b.push(s[k]);
                    assert(s@.subrange(j as int, k + 1) =~= s@.subrange(j as int, k as int).push(
                        s@[k as int],
                    ));
                    k += 1;
                }
                Some((b, end))
            } else {
                None
            }
        },
    }
}

/// Reads `count` header pairs, if they lie within `s`.
pub fn take_headers(s: &Vec<u8>, i: usize, count: u32) -> (r: Option<
    (Vec<(Vec<u8>, Vec<u8>)>, usize),
>)
    ensures
        match r {
            Some(p) => rd_headers(s@, i as int, count as nat) == Some(
                (headers_view(p.0@), p.1 as int),
            ),
            None => rd_headers(s@, i as int, count as nat) is None,
        },
    decreases count,
{
    if count == 0 {
        let hs: Vec<(Vec<u8>, Vec<u8>)> = Vec::new();
        assert(headers_view(hs@) =~= Seq::<(Seq<u8>, Seq<u8>)>::empty());
        Some((hs, i))
    } else {
        match take_bytes(s, i) {
            None => None,
            Some((k, j)) => match take_bytes(s, j) {
                None => None,
                Some((v, l)) => match take_headers(s, l, count - 1) {
                    None => None,
                    Some((hs, e)) => {
                        let ghost tail = headers_view(hs@);
                        let mut hs = hs;
                        hs.insert(0, (k, v));
                        assert(headers_view(hs@) =~= seq![(k@, v@)] + tail);
                        Some((hs, e))
                    },
                },
            },
        }
    }
}

/// Decodes one request from exactly the whole of `s`.
pub fn decode_request(s: &Vec<u8>) -> (r: Option<Request>)
    ensures
        match r {
            Some(req) => spec_decode_request(s@) == Some(req@),
            None => spec_decode_request(s@) is None,
        },
{
    let (sq, i1) = match take_u32(s, 0) {
        Some(p) => p,
        None => {
            return None;
        },
    };
    if i1 >= s.len() {
        return None;
    }
    let t = s[i1];
    let i2 = i1 + 1;
    let m = match tag_method(t) {
        Some(m) => m,
        None => {
            return None;
        },
    };
    let (uri, i3) = match take_bytes(s, i2) {
        Some(p) => p,
        None => {
            return None;
        },
    };
    let (hc, i4) = match take_u32(s, i3) {
        Some(p) => p,
        None => {
            return None;
        },
    };
    let (headers, i5) = match take_headers(s, i4, hc) {
        Some(p) => p,
        None => {
            return None;
        },
    };
    let (body, i6) = match take_bytes(s, i5) {
        Some(p) => p,
        None => {
            return None;
        },
    };
    if i6 != s.len() {
        return None;
    }
    Some(Request { seqid: sq as i32, method: m, uri, headers, body })
}

/// Decodes one response from exactly the whole of `s`.
pub fn decode_response(s: &Vec<u8>) -> (r: Option<Response>)
    ensures
        match r {
            Some(resp) => spec_decode_response(s@) == Some(resp@),
            None => spec_decode_response(s@) is None,
        },
{
    let (sq, i1) = match take_u32(s, 0) {
        Some(p) => p,
        None => {
            return None;
        },
    };
    let (st, i2) = match take_u32(s, i1) {
        Some(p) => p,
        None => {
            return None;
        },
    };
    let (hc, i3) = match take_u32(s, i2) {
        Some(p) => p,
        None => {
            return None;
        },
    };
    let (headers, i4) = match take_headers(s, i3, hc) {
        Some(p) => p,
        None => {
            return None;
        },
    };
    let (body, i5) = match take_bytes(s, i4) {
        Some(p) => p,
        None => {
            return None;
        },
    };
    if i5 != s.len() {
        return None;
    }
    Some(Response { seqid: sq as i32, status: st as i32, headers, body })
}

} // verus!

verus! {

/// A window into a window of `s` is a window of `s`.
proof fn lemma_subrange_of_subrange(s: Seq<u8>, i: int, l: int, a: int, b: int)
    requires
        0 <= i,
        i + l <= s.len(),
        0 <= a <= b <= l,
    ensures
        s.subrange(i + a, i + b) == s.subrange(i, i + l).subrange(a, b),
{
    assert(s.subrange(i + a, i + b) =~= s.subrange(i, i + l).subrange(a, b));
}

/// Where the four little-endian bytes of `n` lie at `i`, reading at `i`
/// yields `n`.
proof fn lemma_rd_u32_at(s: Seq<u8>, i: int, n: u32)
    requires
        0 <= i,
        i + 4 <= s.len(),
        s.subrange(i, i + 4) == spec_le32(n),
    ensures
        rd_u32(s, i) == Some((n, i + 4)),
{
    lemma_le32_round_trip(n);
}

/// Where the length-prefixed form of `b` lies at `i`, reading at `i` yields
/// `b`.
proof fn lemma_rd_bytes_at(s: Seq<u8>, i: int, b: Seq<u8>)
    requires
        0 <= i,
        b.len() <= u32::MAX,
        i + 4 + b.len() <= s.len(),
        s.subrange(i, i + 4) == spec_le32(b.len() as u32),
        s.subrange(i + 4, i + 4 + b.len()) == b,
    ensures
        rd_bytes(s, i) == Some((b, i + 4 + b.len())),
{
    lemma_rd_u32_at(s, i, b.len() as u32);
    assert(b.len() as u32 == b.len());
}

/// Where the encoding of `hs` lies at `i`, reading `hs.len()` pairs at `i`
/// yields `hs`.
proof fn lemma_rd_headers_at(s: Seq<u8>, i: int, hs: Seq<(Seq<u8>, Seq<u8>)>)
    requires
        0 <= i,
        wf_headers(hs),
        i + spec_enc_headers(hs).len() <= s.len(),
        s.subrange(i, i + spec_enc_headers(hs).len()) == spec_enc_headers(hs),
    ensures
        rd_headers(s, i, hs.len()) == Some((hs, i + spec_enc_headers(hs).len())),
    decreases hs.len(),
{
    if hs.len() == 0 {
        assert(hs =~= Seq::<(Seq<u8>, Seq<u8>)>::empty());
    } else {
        let k = hs[0].0;
        let v = hs[0].1;
        let rest = hs.drop_first();
        let enc = spec_enc_headers(hs);
        let ek = spec_lp(k);
        let ev = spec_lp(v);
        let er = spec_enc_headers(rest);
        assert(enc == ek + ev + er);
        let l = enc.len() as int;
        let kl = k.len() as int;
        let vl = v.len() as int;
        // the key
        lemma_subrange_of_subrange(s, i, l, 0, 4);
        assert(enc.subrange(0, 4) =~= spec_le32(k.len() as u32));
        lemma_subrange_of_subrange(s, i, l, 4, 4 + kl);
        assert(enc.subrange(4, 4 + kl) =~= k);
        lemma_rd_bytes_at(s, i, k);
        let i1 = i + 4 + kl;
        // the value
        lemma_subrange_of_subrange(s, i, l, 4 + kl, 8 + kl);
        assert(enc.subrange(4 + kl, 8 + kl) =~= spec_le32(v.len() as u32));
        lemma_subrange_of_subrange(s, i, l, 8 + kl, 8 + kl + vl);
        assert(enc.subrange(8 + kl, 8 + kl + vl) =~= v);
        lemma_rd_bytes_at(s, i1, v);
        let i2 = i1 + 4 + vl;
        // the remaining pairs
        assert(forall|x: int| 0 <= x < rest.len() ==> rest[x] == hs[x + 1]);
        lemma_subrange_of_subrange(s, i, l, 8 + kl + vl, l);
        assert(enc.subrange(8 + kl + vl, l) =~= er);
        lemma_rd_headers_at(s, i2, rest);
        assert(seq![(k, v)] + rest =~= hs);
    }
}

/// Decoding a request's own wire form yields the request back.
#[verifier::rlimit(100)]
pub proof fn lemma_request_round_trip(r: RequestView)
    requires
        wf_request(r),
    ensures
        spec_decode_request(spec_encode_request(r)) == Some(r),
{
    let s = spec_encode_request(r);
    let p1 = spec_le32(r.seqid as u32);
    let p2 = seq![spec_method_tag(r.method)];
    let p3 = spec_lp(r.uri);
    let p4 = spec_le32(r.headers.len() as u32);
    let p5 = spec_enc_headers(r.headers);
    let p6 = spec_lp(r.body);
    assert(s == p1 + p2 + p3 + p4 + p5 + p6);
    let ul = r.uri.len() as int;
    let bl = r.body.len() as int;
    let i2 = 5int;
    let i3 = i2 + 4 + ul;
    let i4 = i3 + 4;
    let i5 = i4 + p5.len() as int;
    let i6 = i5 + 4 + bl;
    assert(s.len() == i6);
    // the sequence id
    assert(s.subrange(0, 4) == p1) by {
        assert(s.subrange(0, 4) =~= p1);
    }
    lemma_rd_u32_at(s, 0, r.seqid as u32);
    // the method tag
    assert(s[4] == spec_method_tag(r.method));
    lemma_method_tag_round_trip(r.method);
    // the uri
    assert(s.subrange(i2, i2 + 4) == spec_le32(r.uri.len() as u32)) by {
        assert(s.subrange(i2, i2 + 4) =~= spec_le32(r.uri.len() as u32));
    }
    assert(s.subrange(i2 + 4, i2 + 4 + ul) == r.uri) by {
        assert(s.subrange(i2 + 4, i2 + 4 + ul) =~= r.uri);
    }
    lemma_rd_bytes_at(s, i2, r.uri);
    // the header count
    assert(s.subrange(i3, i3 + 4) == p4) by {
        assert(s.subrange(i3, i3 + 4) =~= p4);
    }
    lemma_rd_u32_at(s, i3, r.headers.len() as u32);
    assert(r.headers.len() as u32 == r.headers.len());
    // the headers
    assert(s.subrange(i4, i4 + p5.len()) == p5) by {
        assert(s.subrange(i4, i4 + p5.len()) =~= p5);
    }
    lemma_rd_headers_at(s, i4, r.headers);
    // the body
    assert(s.subrange(i5, i5 + 4) == spec_le32(r.body.len() as u32)) by {
        assert(s.subrange(i5, i5 + 4) =~= spec_le32(r.body.len() as u32));
    }
    assert(s.subrange(i5 + 4, i5 + 4 + bl) == r.body) by {
        assert(s.subrange(i5 + 4, i5 + 4 + bl) =~= r.body);
    }
    lemma_rd_bytes_at(s, i5, r.body);
    // the fields read back unchanged
    let sq = r.seqid;
    assert(sq as u32 as i32 == sq) by (bit_vector);
}

/// Decoding a response's own wire form yields the response back.
pub proof fn lemma_response_round_trip(r: ResponseView)
    requires
        wf_response(r),
    ensures
        spec_decode_response(spec_encode_response(r)) == Some(r),
{
    let s = spec_encode_response(r);
    let p1 = spec_le32(r.seqid as u32);
    let p2 = spec_le32(r.status as u32);
    let p3 = spec_le32(r.headers.len() as u32);
    let p4 = spec_enc_headers(r.headers);
    let p5 = spec_lp(r.body);
    assert(s == p1 + p2 + p3 + p4 + p5);
    let bl = r.body.len() as int;
    let i3 = 12int;
    let i4 = i3 + p4.len() as int;
    let i5 = i4 + 4 + bl;
    assert(s.len() == i5);
    assert(s.subrange(0, 4) =~= p1);
    lemma_rd_u32_at(s, 0, r.seqid as u32);
    assert(s.subrange(4, 8) =~= p2);
    lemma_rd_u32_at(s, 4, r.status as u32);
    assert(s.subrange(8, 12) =~= p3);
    lemma_rd_u32_at(s, 8, r.headers.len() as u32);
    assert(r.headers.len() as u32 == r.headers.len());
    assert(s.subrange(i3, i3 + p4.len()) =~= p4);
    lemma_rd_headers_at(s, i3, r.headers);
    assert(s.subrange(i4, i4 + 4) =~= spec_le32(r.body.len() as u32));
    assert(s.subrange(i4 + 4, i4 + 4 + bl) =~= r.body);
    lemma_rd_bytes_at(s, i4, r.body);
    let sq = r.seqid;
    assert(sq as u32 as i32 == sq) by (bit_vector);
    let st = r.status;
    assert(st as u32 as i32 == st) by (bit_vector);
}

} // verus!

verus! {

impl Request {
    /// An empty request: `GET` with sequence id zero and nothing else.
    pub fn new() -> (r: Request)
        ensures
            r@.seqid == 0,
            r@.method == Method::GET,
            r@.uri == Seq::<u8>::empty(),
            r@.headers == Seq::<(Seq<u8>, Seq<u8>)>::empty(),
            r@.body == Seq::<u8>::empty(),
            wf_request(r@),
    {
        let r = Request { seqid: 0, method: Method::GET, uri: Vec::new(), headers: Vec::new(), body: Vec::new() };
        assert(headers_view(r.headers@) =~= Seq::<(Seq<u8>, Seq<u8>)>::empty());
        r
    }

    /// Replaces the URI.
    pub fn set_uri(&mut self, uri: Vec<u8>)
        ensures
            final(self)@ == (RequestView { uri: uri@, ..old(self)@ }),
    {
        self.uri = uri;
    }

    /// Replaces the method.
    pub fn set_method(&mut self, method: Method)
        ensures
            final(self)@ == (RequestView { method, ..old(self)@ }),
    {
        self.method = method;
    }

    /// Replaces the sequence id.
    pub fn set_seqid(&mut self, seqid: i32)
        ensures
            final(self)@ == (RequestView { seqid, ..old(self)@ }),
    {
        self.seqid = seqid;
    }

    /// Replaces the body.
    pub fn set_body(&mut self, body: Vec<u8>)
        ensures
            final(self)@ == (RequestView { body: body@, ..old(self)@ }),
    {
        self.body = body;
    }

    /// Replaces the header list.
    pub fn set_headers(&mut self, headers: Vec<(Vec<u8>, Vec<u8>)>)
        ensures
            final(self)@ == (RequestView { headers: headers_view(headers@), ..old(self)@ }),
    {
        self.headers = headers;
    }

    /// Appends one header pair.
    pub fn set_header(&mut self, key: Vec<u8>, value: Vec<u8>)
        ensures
            final(self)@ == (RequestView {
                headers: old(self)@.headers.push((key@, value@)),
                ..old(self)@
            }),
    {
        let ghost h0 = headers_view(self.headers@);
        self.headers.push((key, value));
        assert(headers_view(self.headers@) =~= h0.push((key@, value@)));
    }
}

impl Response {
    /// An empty response: sequence id and status zero, nothing else.
    pub fn new() -> (r: Response)
        ensures
            r@.seqid == 0,
            r@.status == 0,
            r@.headers == Seq::<(Seq<u8>, Seq<u8>)>::empty(),
            r@.body == Seq::<u8>::empty(),
            wf_response(r@),
    {
        let r = Response { seqid: 0, status: 0, headers: Vec::new(), body: Vec::new() };
        assert(headers_view(r.headers@) =~= Seq::<(Seq<u8>, Seq<u8>)>::empty());
        r
    }

    /// Replaces the status.
    pub fn set_status(&mut self, status: i32)
        ensures
            final(self)@ == (ResponseView { status, ..old(self)@ }),
    {
        self.status = status;
    }

    /// Replaces the sequence id.
    pub fn set_seqid(&mut self, seqid: i32)
        ensures
            final(self)@ == (ResponseView { seqid, ..old(self)@ }),
    {
        self.seqid = seqid;
    }

    /// Replaces the body.
    pub fn set_body(&mut self, body: Vec<u8>)
        ensures
            final(self)@ == (ResponseView { body: body@, ..old(self)@ }),
    {
        self.body = body;
    }

    /// Replaces the header list.
    pub fn set_headers(&mut self, headers: Vec<(Vec<u8>, Vec<u8>)>)
        ensures
            final(self)@ == (ResponseView { headers: headers_view(headers@), ..old(self)@ }),
    {
        self.headers = headers;
    }

    /// Appends one header pair.
    pub fn set_header(&mut self, key: Vec<u8>, value: Vec<u8>)
        ensures
            final(self)@ == (ResponseView {
                headers: old(self)@.headers.push((key@, value@)),
                ..old(self)@
            }),
    {
        let ghost h0 = headers_view(self.headers@);
        self.headers.push((key, value));
        assert(headers_view(self.headers@) =~= h0.push((key@, value@)));
    }
}

} // verus!

verus! {

/// The value of a freshly constructed request.
pub open spec fn empty_request_view() -> RequestView {
    RequestView {
        seqid: 0,
        method: Method::GET,
        uri: Seq::empty(),
        headers: Seq::empty(),
        body: Seq::empty(),
    }
}

/// The value of a freshly constructed response.
pub open spec fn empty_response_view() -> ResponseView {
    ResponseView { seqid: 0, status: 0, headers: Seq::empty(), body: Seq::empty() }
}

} // verus!

verus! {

/// Whether every field of `r` fits its length prefix.
pub fn check_wf_request(r: &Request) -> (b: bool)
    ensures
        b == wf_request(r@),
{
    r.uri.len() <= u32::MAX as usize && r.body.len() <= u32::MAX as usize && check_wf_headers(
        &r.headers,
    )
}

/// Whether every field of `r` fits its length prefix.
pub fn check_wf_response(r: &Response) -> (b: bool)
    ensures
        b == wf_response(r@),
{
    r.body.len() <= u32::MAX as usize && check_wf_headers(&r.headers)
}

/// Whether a header list fits its length prefixes.
pub fn check_wf_headers(hs: &Vec<(Vec<u8>, Vec<u8>)>) -> (b: bool)
    ensures
        b == wf_headers(headers_view(hs@)),
{
    let ghost hv = headers_view(hs@);
    let n = hs.len();
    if n > u32::MAX as usize {
        return false;
    }
    let mut i: usize = 0;
    while i < n
        invariant
            i <= n,
            n == hs@.len(),
            hv == headers_view(hs@),
            hv.len() == n,
            n <= u32::MAX,
            forall|j: int|
                0 <= j < i ==> (#[trigger] hv[j]).0.len() <= u32::MAX && hv[j].1.len() <= u32::MAX,
        decreases n - i,
    {
        assert(hv[i as int] == (hs@[i as int].0@, hs@[i as int].1@));
        if hs[i].0.len() > u32::MAX as usize || hs[i].1.len() > u32::MAX as usize {
            return false;
        }
        i += 1;
    }
    true
}

} // verus!
