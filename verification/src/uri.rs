//! Scheme and authority extraction from a request URI.
//!
//! The scheme is the prefix before the first `://`, upper-cased as ASCII; a
//! URI with no separator and an empty or lone-`/` prefix is plain `HTTP`.
//! The authority is what stands between the separator and the next `/`.

use vstd::prelude::*;

use crate::codec::{Request, Scheme};
use crate::error::PodError;
use crate::wire::copy_range;

verus! {

/// `c` upper-cased as ASCII.
pub open spec fn spec_upper(c: u8) -> u8 {
    if 97 <= c && c <= 122 {
        (c - 32) as u8
    } else {
        c
    }
}

/// The bytes `://` stand at `i`.
pub open spec fn sep_at(s: Seq<u8>, i: int) -> bool {
    &&& 0 <= i
    &&& i + 3 <= s.len()
    &&& s[i] == 58u8
    &&& s[i + 1] == 47u8
    &&& s[i + 2] == 47u8
}

/// The first position at or after `i` where `://` stands.
pub open spec fn find_sep_from(s: Seq<u8>, i: int) -> Option<int>
    recommends
        0 <= i <= s.len(),
    decreases s.len() - i when 0 <= i <= s.len()
{
    if i + 3 > s.len() {
        None
    } else if sep_at(s, i) {
        Some(i)
    } else {
        find_sep_from(s, i + 1)
    }
}

/// The first position at or after `i` holding `/`.
pub open spec fn find_slash_from(s: Seq<u8>, i: int) -> Option<int>
    recommends
        0 <= i <= s.len(),
    decreases s.len() - i when 0 <= i <= s.len()
{
    if i >= s.len() {
        None
    } else if s[i] == 47u8 {
        Some(i)
    } else {
        find_slash_from(s, i + 1)
    }
}

/// The prefix of `s` before the first `://`, or all of `s` without one.
pub open spec fn spec_scheme_prefix(s: Seq<u8>) -> Seq<u8> {
    match find_sep_from(s, 0) {
        Some(i) => s.subrange(0, i),
        None => s,
    }
}

/// The upper-cased prefix `p` spells `HTTP`.
pub open spec fn spells_http(p: Seq<u8>) -> bool {
    let u = p.map_values(|c: u8| spec_upper(c));
    u.len() == 4 && u[0] == 72u8 && u[1] == 84u8 && u[2] == 84u8 && u[3] == 80u8
}

/// The upper-cased prefix `p` spells `HTTPS`.
pub open spec fn spells_https(p: Seq<u8>) -> bool {
    let u = p.map_values(|c: u8| spec_upper(c));
    u.len() == 5 && u[0] == 72u8 && u[1] == 84u8 && u[2] == 84u8 && u[3] == 80u8 && u[4] == 83u8
}

/// The upper-cased prefix `p` spells `RPC`.
pub open spec fn spells_rpc(p: Seq<u8>) -> bool {
    let u = p.map_values(|c: u8| spec_upper(c));
    u.len() == 3 && u[0] == 82u8 && u[1] == 80u8 && u[2] == 67u8
}

/// The upper-cased prefix `p` spells `WNS`.
pub open spec fn spells_wns(p: Seq<u8>) -> bool {
    let u = p.map_values(|c: u8| spec_upper(c));
    u.len() == 3 && u[0] == 87u8 && u[1] == 78u8 && u[2] == 83u8
}

/// The scheme named by the URI `s`, if recognized.
pub open spec fn spec_parse_scheme(s: Seq<u8>) -> Option<Scheme> {
    let p = spec_scheme_prefix(s);
    if p.len() == 0 || (p.len() == 1 && p[0] == 47u8) || spells_http(p) {
        Some(Scheme::HTTP)
    } else if spells_https(p) {
        Some(Scheme::HTTPS)
    } else if spells_rpc(p) {
        Some(Scheme::RPC)
    } else if spells_wns(p) {
        Some(Scheme::WNS)
    } else {
        None
    }
}

/// The authority of the URI `s`: between `://` and the next `/`, or empty
/// without a separator.
pub open spec fn spec_authority(s: Seq<u8>) -> Seq<u8> {
    match find_sep_from(s, 0) {
        Some(i) => match find_slash_from(s, i + 3) {
            Some(j) => s.subrange(i + 3, j),
            None => s.subrange(i + 3, s.len() as int),
        },
        None => Seq::empty(),
    }
}

/// The path of the URI `s`: from the first `/` after the authority, or all
/// of `s` without a separator.
pub open spec fn spec_path(s: Seq<u8>) -> Seq<u8> {
    match find_sep_from(s, 0) {
        Some(i) => match find_slash_from(s, i + 3) {
            Some(j) => s.subrange(j, s.len() as int),
            None => Seq::empty(),
        },
        None => s,
    }
}

/// The routing parts of a URI.
#[derive(Debug, Clone)]
pub struct UriParts {
    pub scheme: Scheme,
    pub authority: Vec<u8>,
    pub path: Vec<u8>,
}

/// `c` upper-cased as ASCII.
pub fn upper(c: u8) -> (r: u8)
    ensures
        r == spec_upper(c),
{
    if 97 <= c && c <= 122 {
        c - 32
    } else {
        c
    }
}

/// Finds the first `://` at or after `i`.
pub fn find_sep(s: &Vec<u8>, i: usize) -> (r: Option<usize>)
    requires
        i <= s@.len(),
    ensures
        match r {
            Some(j) => find_sep_from(s@, i as int) == Some(j as int) && i <= j && j + 3 <= s@.len(),
            None => find_sep_from(s@, i as int) is None,
        },
    decreases s@.len() - i,
{
    if s.len() < 3 || i > s.len() - 3 {
        None
    } else if s[i] == 58 && s[i + 1] == 47 && s[i + 2] == 47 {
        Some(i)
    } else {
        find_sep(s, i + 1)
    }
}

/// Finds the first `/` at or after `i`.
pub fn find_slash(s: &Vec<u8>, i: usize) -> (r: Option<usize>)
    requires
        i <= s@.len(),
    ensures
        match r {
            Some(j) => find_slash_from(s@, i as int) == Some(j as int) && i <= j && j < s@.len(),
            None => find_slash_from(s@, i as int) is None,
        },
    decreases s@.len() - i,
{
    if i >= s.len() {
        None
    } else if s[i] == 47 {
        Some(i)
    } else {
        find_slash(s, i + 1)
    }
}

/// Parses the scheme of the URI `uri`; unrecognized prefixes are rejected.
pub fn parse_scheme(uri: &Vec<u8>) -> (r: Result<Scheme, PodError>)
    ensures
        match r {
            Ok(sch) => spec_parse_scheme(uri@) == Some(sch),
            Err(e) => spec_parse_scheme(uri@) is None && e == PodError::InvalidScheme,
        },
{
    let pe = match find_sep(uri, 0) {
        Some(i) => i,
        None => uri.len(),
    };
    let ghost p = spec_scheme_prefix(uri@);
    proof {
        assert(p =~= uri@.subrange(0, pe as int));
        assert(forall|k: int| 0 <= k < p.len() ==> p[k] == uri@[k]);
        assert(forall|k: int|
            0 <= k < p.len() ==> p.map_values(|c: u8| spec_upper(c))[k] == spec_upper(uri@[k]));
    }
    if pe == 0 {
        return Ok(Scheme::HTTP);
    }
    if pe == 1 && uri[0] == 47 {
        return Ok(Scheme::HTTP);
    }
    if pe == 4 && upper(uri[0]) == 72 && upper(uri[1]) == 84 && upper(uri[2]) == 84 && upper(
        uri[3],
    ) == 80 {
        return Ok(Scheme::HTTP);
    }
    if pe == 5 && upper(uri[0]) == 72 && upper(uri[1]) == 84 && upper(uri[2]) == 84 && upper(
        uri[3],
    ) == 80 && upper(uri[4]) == 83 {
        return Ok(Scheme::HTTPS);
    }
    if pe == 3 && upper(uri[0]) == 82 && upper(uri[1]) == 80 && upper(uri[2]) == 67 {
        return Ok(Scheme::RPC);
    }
    if pe == 3 && upper(uri[0]) == 87 && upper(uri[1]) == 78 && upper(uri[2]) == 83 {
        return Ok(Scheme::WNS);
    }
    Err(PodError::InvalidScheme)
}

/// Splits the URI `uri` into scheme, authority and path.
pub fn parse_uri_parts(uri: &Vec<u8>) -> (r: Result<UriParts, PodError>)
    ensures
        match r {
            Ok(parts) => {
                &&& spec_parse_scheme(uri@) == Some(parts.scheme)
                &&& parts.authority@ == spec_authority(uri@)
                &&& parts.path@ == spec_path(uri@)
            },
            Err(e) => spec_parse_scheme(uri@) is None && e == PodError::InvalidScheme,
        },
{
    let scheme = match parse_scheme(uri) {
        Ok(s) => s,
        Err(e) => {
            return Err(e);
        },
    };
    let n = uri.len();
    match find_sep(uri, 0) {
        Some(i) => {
            let a0 = i + 3;
            match find_slash(uri, a0) {
                Some(j) => {
                    let authority = copy_range(uri, a0, j);
                    let path = copy_range(uri, j, n);
                    Ok(UriParts { scheme, authority, path })
                },
                None => {
                    let authority = copy_range(uri, a0, n);
                    let path = Vec::new();
                    assert(path@ =~= spec_path(uri@));
                    Ok(UriParts { scheme, authority, path })
                },
            }
        },
        None => {
            let authority = Vec::new();
            let path = copy_range(uri, 0, n);
            assert(authority@ =~= spec_authority(uri@));
            assert(path@ =~= uri@);
            Ok(UriParts { scheme, authority, path })
        },
    }
}

impl Request {
    /// The scheme that routes this request.
    pub fn get_scheme(&self) -> (r: Result<Scheme, PodError>)
        ensures
            match r {
                Ok(sch) => spec_parse_scheme(self.uri@) == Some(sch),
                Err(e) => spec_parse_scheme(self.uri@) is None && e == PodError::InvalidScheme,
            },
    {
        parse_scheme(&self.uri)
    }

    /// The routing parts of this request's URI.
    pub fn parse_uri(&self) -> (r: Result<UriParts, PodError>)
        ensures
            match r {
                Ok(parts) => {
                    &&& spec_parse_scheme(self.uri@) == Some(parts.scheme)
                    &&& parts.authority@ == spec_authority(self.uri@)
                    &&& parts.path@ == spec_path(self.uri@)
                },
                Err(e) => spec_parse_scheme(self.uri@) is None && e == PodError::InvalidScheme,
            },
    {
        parse_uri_parts(&self.uri)
    }
}

} // verus!
