//! Mapping between the pod's method and status values and the HTTP wire.
//!
//! An unknown inbound method token reads as `GET`; `ONEWAY` leaves the pod
//! as `GET`; a non-positive response status leaves as `200`.

use vstd::prelude::*;

use crate::codec::Method;

verus! {

/// The token spells `GET`.
pub open spec fn name_get(s: Seq<u8>) -> bool {
    s.len() == 3 && s[0] == 71u8 && s[1] == 69u8 && s[2] == 84u8
}

/// The token spells `HEAD`.
pub open spec fn name_head(s: Seq<u8>) -> bool {
    s.len() == 4 && s[0] == 72u8 && s[1] == 69u8 && s[2] == 65u8 && s[3] == 68u8
}

/// The token spells `POST`.
pub open spec fn name_post(s: Seq<u8>) -> bool {
    s.len() == 4 && s[0] == 80u8 && s[1] == 79u8 && s[2] == 83u8 && s[3] == 84u8
}

/// The token spells `PUT`.
pub open spec fn name_put(s: Seq<u8>) -> bool {
    s.len() == 3 && s[0] == 80u8 && s[1] == 85u8 && s[2] == 84u8
}

/// The token spells `DELETE`.
pub open spec fn name_delete(s: Seq<u8>) -> bool {
    s.len() == 6 && s[0] == 68u8 && s[1] == 69u8 && s[2] == 76u8 && s[3] == 69u8 && s[4] == 84u8
        && s[5] == 69u8
}

/// The token spells `CONNECT`.
pub open spec fn name_connect(s: Seq<u8>) -> bool {
    s.len() == 7 && s[0] == 67u8 && s[1] == 79u8 && s[2] == 78u8 && s[3] == 78u8 && s[4] == 69u8
        && s[5] == 67u8 && s[6] == 84u8
}

/// The token spells `OPTIONS`.
pub open spec fn name_options(s: Seq<u8>) -> bool {
    s.len() == 7 && s[0] == 79u8 && s[1] == 80u8 && s[2] == 84u8 && s[3] == 73u8 && s[4] == 79u8
        && s[5] == 78u8 && s[6] == 83u8
}

/// The token spells `TRACE`.
pub open spec fn name_trace(s: Seq<u8>) -> bool {
    s.len() == 5 && s[0] == 84u8 && s[1] == 82u8 && s[2] == 65u8 && s[3] == 67u8 && s[4] == 69u8
}

/// The token spells `PATCH`.
pub open spec fn name_patch(s: Seq<u8>) -> bool {
    s.len() == 5 && s[0] == 80u8 && s[1] == 65u8 && s[2] == 84u8 && s[3] == 67u8 && s[4] == 72u8
}

/// The method an inbound HTTP token maps to; anything unknown reads as
/// `GET`. `ONEWAY` never arrives over HTTP.
pub open spec fn spec_method_from_name(s: Seq<u8>) -> Method {
    if name_head(s) {
        Method::HEAD
    } else if name_post(s) {
        Method::POST
    } else if name_put(s) {
        Method::PUT
    } else if name_delete(s) {
        Method::DELETE
    } else if name_connect(s) {
        Method::CONNECT
    } else if name_options(s) {
        Method::OPTIONS
    } else if name_trace(s) {
        Method::TRACE
    } else if name_patch(s) {
        Method::PATCH
    } else {
        Method::GET
    }
}

/// Maps an inbound HTTP method token to the pod's method.
pub fn method_from_name(name: &Vec<u8>) -> (r: Method)
    ensures
        r == spec_method_from_name(name@),
{
    let n = name.len();
    if n == 4 && name[0] == 72 && name[1] == 69 && name[2] == 65 && name[3] == 68 {
        Method::HEAD
    } else if n == 4 && name[0] == 80 && name[1] == 79 && name[2] == 83 && name[3] == 84 {
        Method::POST
    } else if n == 3 && name[0] == 80 && name[1] == 85 && name[2] == 84 {
        Method::PUT
    } else if n == 6 && name[0] == 68 && name[1] == 69 && name[2] == 76 && name[3] == 69 && name[4]
        == 84 && name[5] == 69 {
        Method::DELETE
    } else if n == 7 && name[0] == 67 && name[1] == 79 && name[2] == 78 && name[3] == 78 && name[4]
        == 69 && name[5] == 67 && name[6] == 84 {
        Method::CONNECT
    } else if n == 7 && name[0] == 79 && name[1] == 80 && name[2] == 84 && name[3] == 73 && name[4]
        == 79 && name[5] == 78 && name[6] == 83 {
        Method::OPTIONS
    } else if n == 5 && name[0] == 84 && name[1] == 82 && name[2] == 65 && name[3] == 67 && name[4]
        == 69 {
        Method::TRACE
    } else if n == 5 && name[0] == 80 && name[1] == 65 && name[2] == 84 && name[3] == 67 && name[4]
        == 72 {
        Method::PATCH
    } else {
        Method::GET
    }
}

/// The method as it leaves the pod over HTTP: `ONEWAY` egresses as `GET`.
pub fn wire_method(m: Method) -> (r: Method)
    ensures
        r == (if m == Method::ONEWAY {
            Method::GET
        } else {
            m
        }),
{
    match m {
        Method::ONEWAY => Method::GET,
        _ => m,
    }
}

/// The HTTP token of a method; `ONEWAY` carries `GET`'s.
pub open spec fn spec_method_token(m: Method) -> Seq<char> {
    match m {
        Method::GET => "GET"@,
        Method::HEAD => "HEAD"@,
        Method::POST => "POST"@,
        Method::PUT => "PUT"@,
        Method::DELETE => "DELETE"@,
        Method::CONNECT => "CONNECT"@,
        Method::OPTIONS => "OPTIONS"@,
        Method::TRACE => "TRACE"@,
        Method::PATCH => "PATCH"@,
        Method::ONEWAY => "GET"@,
    }
}

impl Method {
    /// This method's token.
    pub fn as_str(&self) -> (r: &'static str)
        ensures
            r@ == spec_method_token(*self),
    {
        let r: &'static str = match self {
            Method::GET => "GET",
            Method::HEAD => "HEAD",
            Method::POST => "POST",
            Method::PUT => "PUT",
            Method::DELETE => "DELETE",
            Method::CONNECT => "CONNECT",
            Method::OPTIONS => "OPTIONS",
            Method::TRACE => "TRACE",
            Method::PATCH => "PATCH",
            Method::ONEWAY => "GET",
        };
        r
    }
}

/// The status a response leaves with over HTTP: non-positive values
/// normalize to `200`.
pub fn egress_status(status: i32) -> (r: u16)
    ensures
        status <= 0 ==> r == 200,
        status > 0 ==> r == status as u16,
{
    if status <= 0 {
        200
    } else {
        #[verifier::truncate] (status as u16)
    }
}

} // verus!
