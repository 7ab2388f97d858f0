//! A server-side-rendering worker pool: render jobs submitted from an
//! asynchronous front end are brokered over a shared bounded queue to a
//! self-scaling set of dedicated engine threads, each owning one script
//! engine. Around the pool core sit the helpers the surrounding web
//! framework needs: route path parameters, response caching headers,
//! websocket upgrade checks and the api request/response plumbing.

use vstd::prelude::*;
use vstd::string::StringExecFns;

pub mod api_util;
pub mod caching;
pub mod fetch;
pub mod header;
pub mod path_params;
pub mod pool;
pub mod router;
pub mod runtime;
pub mod text;
pub mod ws;

pub use runtime::IdCounter;

verus! {

/// Errors surfaced by the rendering front end.
#[derive(Debug)]
#[non_exhaustive]
pub enum Error {
    /// The worker thread holding the job terminated before replying.
    Panicked,
    /// Reading the request body failed; carries the i/o error text.
    Io(String),
    /// Any other failure, described in text.
    Other(String),
}

/// One render job as it travels to a worker: immutable once created.
pub struct SsrRequest {
    /// The requestor's address, as text.
    pub address: String,
    /// The method name, uppercased.
    pub method: String,
    /// Path plus query.
    pub uri: String,
    pub headers: Vec<(String, String)>,
    pub body: String,
}

/// One render result as it travels back: the status and the named
/// fragments later substituted into the static shell.
pub struct SsrResponse {
    pub status: u16,
    pub fields: Vec<(String, String)>,
}

/// Installs the one-time routing callback: the first installation wins,
/// and the callback, once set, is never replaced.
pub fn install_callback<C>(slot: &mut Option<C>, callback: C)
    ensures
        *old(slot) is None ==> *final(slot) == Some(callback),
        *old(slot) is Some ==> *final(slot) == *old(slot),
{
    if slot.is_none() {
        *slot = Some(callback);
    }
}

/// The uri a job carries: the path, and the query after a `?` when there
/// is one.
pub fn compose_uri(path: &str, query: Option<&str>) -> (r: String)
    ensures
        match query {
            Some(q) => r@ == path@ + "?"@ + q@,
            None => r@ == path@,
        },
{
    let mut r = String::from_str(path);
    match query {
        Some(q) => {
            r.append("?");
            r.append(q);
        },
        None => {},
    }
    r
}

} // verus!
