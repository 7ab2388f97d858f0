//! The fetch bridge: the one host operation through which engine code
//! reaches other services. A target that begins with `/` is a loop-back,
//! dispatched against the host's own routes through the installed routing
//! callback; anything else goes out over the network. This module holds
//! the verified rules of that bridge: how the target is classified, how
//! the method and headers are read, and what the loop-back path answers.

use vstd::prelude::*;
use crate::header::Method;
use crate::header::Response;
use crate::header::HeaderValues;
use crate::header::RequestHeader;
use crate::header::kept_headers;
use crate::header::sanitize_headers;
use crate::header::spec_parse_method;
use crate::header::parse_method;
use crate::header::without_key;
use crate::text::spec_upper;
use vstd::string::StrSliceExecFns;
use vstd::string::StringExecFns;

verus! {

/// What engine code hands the fetch bridge.
pub struct FetchRequest {
    pub url: String,
    pub method: String,
    pub headers: Vec<(String, String)>,
    pub body: String,
}

/// What the fetch bridge answers, for the loop-back and the network path
/// alike.
pub struct FetchResponse {
    pub status: u16,
    pub headers: Vec<(String, String)>,
    pub body: String,
}

/// A fetch target that begins with `/` is always routed internally; any
/// other target goes over the network.
pub open spec fn spec_is_loopback(url: Seq<char>) -> bool {
    url.len() > 0 && url[0] == '/'
}

pub fn is_loopback(url: &str) -> (r: bool)
    ensures
        r == spec_is_loopback(url@),
{
    if url.is_empty() {
        false
    } else {
        url.get_char(0) == '/'
    }
}

/// The method a fetch is performed with: the request's own, read
/// ASCII-case-insensitively, and plain GET for anything unknown.
pub open spec fn spec_fetch_method(s: Seq<char>) -> Method {
    if spec_parse_method(spec_upper(s)) is Other {
        Method::Get
    } else {
        spec_parse_method(spec_upper(s))
    }
}

pub fn fetch_method(s: &str) -> (r: Method)
    ensures
        r == spec_fetch_method(s@),
{
    let m = parse_method(s);
    match m {
        Method::Other => Method::Get,
        _ => m,
    }
}

/// Builds the request a loop-back fetch dispatches against the host's
/// own routes: no real peer exists, so the address is the null address,
/// and malformed headers are dropped rather than failing the fetch.
pub fn loopback_request(req: &FetchRequest) -> (r: RequestHeader)
    ensures
        r.address@ == "0.0.0.0:0"@,
        r.method == spec_fetch_method(req.method@),
        r.uri == req.url,
        r.values.entries@ == kept_headers(req.headers@),
{
    let values = HeaderValues { entries: sanitize_headers(&req.headers) };
    RequestHeader {
        address: String::from_str("0.0.0.0:0"),
        method: fetch_method(req.method.as_str()),
        uri: req.url.clone(),
        values,
    }
}

/// What the loop-back path answers. A route that matched answers with
/// its own status and body, its representable headers, and its content
/// type filed under `content-type`; when no routing callback is
/// installed or no route matched, the answer is a bare "not found".
pub fn loopback_response(found: Option<Response>) -> (r: FetchResponse)
    ensures
        match found {
            Some(res) => {
                &&& r.status == res.header.status_code
                &&& r.headers@.len() > 0
                &&& r.headers@.drop_last() == without_key(
                    kept_headers(res.header.values.entries@),
                    "content-type"@,
                )
                &&& r.headers@.last().0@ == "content-type"@
                &&& r.headers@.last().1 == res.header.content_type
                &&& r.body == res.body
            },
            None => {
                &&& r.status == 404
                &&& r.headers@.len() == 0
                &&& r.body@.len() == 0
            },
        },
{
    match found {
        Some(res) => {
            let mut values = HeaderValues { entries: sanitize_headers(&res.header.values.entries) };
            values.insert("content-type", res.header.content_type);
            FetchResponse { status: res.header.status_code, headers: values.entries, body: res.body }
        },
        None => FetchResponse { status: 404, headers: Vec::new(), body: String::new() },
    }
}

} // verus!
