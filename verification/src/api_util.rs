//! The api request/response plumbing: preparing a request for a typed
//! api handler and turning the handler's outcome into a wire response.
//! Serializing the caller's own types stays with the caller; this module
//! receives the serialized text and is verified around it.

use vstd::prelude::*;
use crate::header::HeaderValues;
use crate::header::Response;
use crate::header::ResponseHeader;
use crate::header::lookup;
use vstd::string::StringExecFns;

verus! {

/// Why a typed api request could not be served.
#[derive(Debug)]
pub enum ApiError {
    /// A header the handler requires is absent; carries the handler's
    /// required list.
    HeadersMissing(Vec<String>),
    /// The request body or query could not be read into the handler's
    /// input type.
    Deserialize(String),
    /// An extractor for one handler argument failed.
    ExtractionError(String),
    /// The handler's output could not be serialized.
    Serialize(String),
}

/// The adjustable handling limits of one request.
pub struct ApiRequestSettings {
    pub size_limit: Option<usize>,
    pub timeout_secs: Option<u64>,
}

/// Prepares a request for a typed handler: pins the handler's size
/// limit and timeout onto it, and demands every header the handler
/// requires.
pub fn setup_request(
    settings: &mut ApiRequestSettings,
    values: &HeaderValues,
    size_limit: usize,
    timeout_secs: u64,
    required: &Vec<String>,
) -> (r: Result<(), ApiError>)
    ensures
        final(settings).size_limit == Some(size_limit),
        final(settings).timeout_secs == Some(timeout_secs),
        (r is Ok) == (forall|i: int|
            0 <= i < required@.len() ==> lookup(values.entries@, (#[trigger] required@[i])@)
                is Some),
        r is Err ==> r->Err_0 is HeadersMissing && r->Err_0->HeadersMissing_0@ == required@,
{
    settings.size_limit = Some(size_limit);
    settings.timeout_secs = Some(timeout_secs);
    let mut i: usize = 0;
    let mut missing = false;
    while i < required.len()
        invariant
            i <= required@.len(),
            missing == !(forall|m: int|
                0 <= m < i ==> lookup(values.entries@, (#[trigger] required@[m])@) is Some),
        decreases required@.len() - i,
    {
        match values.value(required[i].as_str()) {
            Some(_) => {},
            None => {
                missing = true;
            },
        }
        i = i + 1;
    }
    if missing {
        let mut copy: Vec<String> = Vec::new();
        let mut j: usize = 0;
        while j < required.len()
            invariant
                j <= required@.len(),
                copy@ == required@.subrange(0, j as int),
            decreases required@.len() - j,
        {
            copy.push(required[j].clone());
            proof {
                assert(copy@ =~= required@.subrange(0, j + 1 as int));
            }
            j = j + 1;
        }
        proof {
            assert(copy@ =~= required@);
        }
        Err(ApiError::HeadersMissing(copy))
    } else {
        Ok(())
    }
}

/// Wraps an extractor's failure text as the api error it surfaces as.
pub fn extraction_error(text: String) -> (r: ApiError)
    ensures
        r == ApiError::ExtractionError(text),
{
    ApiError::ExtractionError(text)
}

/// What a successful handler hands back besides its body.
pub struct ResponseSettings {
    pub status: u16,
    pub headers: HeaderValues,
}

/// A handler's failure, ready for the wire: the status it maps to and
/// its body as serialized by the caller — or the text of the
/// serialization failure itself.
pub struct ApiFailure {
    pub status: u16,
    pub serialized: Result<String, String>,
}

/// Turns a handler's outcome into the response that goes out: a success
/// keeps its own status, headers and body; a failure becomes a response
/// carrying its status and serialized body; and only a failure that
/// could not even be serialized is given up on. Either way the response
/// is typed as json.
pub fn transform_body_to_response(res: Result<(ResponseSettings, String), ApiFailure>) -> (r:
    Result<Response, String>)
    ensures
        match res {
            Ok((settings, body)) => {
                &&& r is Ok
                &&& r->Ok_0.header.status_code == settings.status
                &&& r->Ok_0.header.values == settings.headers
                &&& r->Ok_0.header.content_type@ == "application/json"@
                &&& r->Ok_0.body == body
            },
            Err(f) => match f.serialized {
                Ok(b) => {
                    &&& r is Ok
                    &&& r->Ok_0.header.status_code == f.status
                    &&& r->Ok_0.header.values.entries@.len() == 0
                    &&& r->Ok_0.header.content_type@ == "application/json"@
                    &&& r->Ok_0.body == b
                },
                Err(e) => r == Err::<Response, String>(e),
            },
        },
{
    match res {
        Ok((settings, body)) => Ok(
            Response {
                header: ResponseHeader {
                    status_code: settings.status,
                    content_type: String::from_str("application/json"),
                    values: settings.headers,
                },
                body,
            },
        ),
        Err(f) => match f.serialized {
            Ok(b) => Ok(
                Response {
                    header: ResponseHeader {
                        status_code: f.status,
                        content_type: String::from_str("application/json"),
                        values: HeaderValues::new(),
                    },
                    body: b,
                },
            ),
            Err(e) => Err(e),
        },
    }
}

} // verus!
