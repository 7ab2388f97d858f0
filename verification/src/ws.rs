//! The websocket upgrade handshake: checking the upgrade headers,
//! deriving the accept key, and answering with the protocol switch.

use vstd::prelude::*;
use crate::header::HeaderValues;
use crate::header::Response;
use crate::header::ResponseHeader;
use crate::header::lookup;
use crate::header::without_key;
use crate::text::str_eq;
use vstd::string::StrSliceExecFns;
use sha1::Digest;
use vstd::string::StringExecFns;

verus! {

/// What the SHA-1 digest of some bytes is: a function of the bytes
/// alone, named rather than spelled out.
pub uninterp spec fn sha1_of(data: Seq<u8>) -> Seq<u8>;

/// Relies on sha1's `Sha1::digest`: the digest depends on the input
/// bytes alone and is twenty bytes long.
#[verifier::external_body]
fn sha1_digest(data: &Vec<u8>) -> (r: Vec<u8>)
    ensures
        r@ == sha1_of(data@),
        r@.len() == 20,
{
    sha1::Sha1::digest(data.as_slice()).to_vec()
}

/// What the standard, padded base64 text of some bytes is: a function
/// of the bytes alone, named rather than spelled out.
pub uninterp spec fn base64_of(data: Seq<u8>) -> Seq<char>;

/// Relies on base64's `encode` (the standard alphabet, padded): the
/// text depends on the bytes alone, four characters per three bytes.
#[verifier::external_body]
fn base64_encode(data: &Vec<u8>) -> (r: String)
    ensures
        r@ == base64_of(data@),
        r@.len() == 4 * ((data@.len() + 2) / 3),
{
    base64::encode(data.as_slice())
}

/// The fixed websocket GUID every accept key mixes in.
pub open spec fn ws_guid() -> Seq<char> {
    "258EAFA5-E914-47DA-95CA-C5AB0DC85B11"@
}

/// The accept key of a handshake: the client key's bytes, the websocket
/// GUID appended, hashed and base64-encoded.
pub open spec fn spec_accept_key(key: Seq<u8>) -> Seq<char> {
    base64_of(sha1_of(key + vstd::utf8::encode_utf8(ws_guid())))
}

/// Computes the accept key for a client's `sec-websocket-key`.
pub fn websocket_accept(key: &Vec<u8>) -> (r: String)
    ensures
        r@ == spec_accept_key(key@),
{
    let guid = "258EAFA5-E914-47DA-95CA-C5AB0DC85B11";
    let mut data = key.clone();
    let mut tail = guid.as_bytes_vec();
    data.append(&mut tail);
    let digest = sha1_digest(&data);
    base64_encode(&digest)
}

/// Headers that ask for a websocket upgrade: `upgrade: websocket`,
/// version 13, and a client key present.
pub open spec fn spec_upgrade_requested(entries: Seq<(String, String)>) -> bool {
    &&& lookup(entries, "upgrade"@) == Some("websocket"@)
    &&& lookup(entries, "sec-websocket-version"@) == Some("13"@)
    &&& lookup(entries, "sec-websocket-key"@) is Some
}

/// Checks a request's headers and, when they ask for a websocket
/// upgrade, hands back the accept key derived from the client's key;
/// anything else is a bad request, answered with `None`.
pub fn upgrade(values: &HeaderValues) -> (r: Option<String>)
    ensures
        match r {
            Some(acc) => {
                &&& spec_upgrade_requested(values.entries@)
                &&& acc@ == spec_accept_key(
                    vstd::utf8::encode_utf8(lookup(values.entries@, "sec-websocket-key"@)->Some_0),
                )
            },
            None => !spec_upgrade_requested(values.entries@),
        },
{
    let up_ok = match values.value("upgrade") {
        Some(v) => str_eq(v.as_str(), "websocket"),
        None => false,
    };
    let ver_ok = match values.value("sec-websocket-version") {
        Some(v) => str_eq(v.as_str(), "13"),
        None => false,
    };
    if !up_ok || !ver_ok {
        return None;
    }
    match values.value("sec-websocket-key") {
        Some(key) => {
            let key_bytes = key.as_str().as_bytes_vec();
            Some(websocket_accept(&key_bytes))
        },
        None => None,
    }
}

/// What a finished websocket handler hands back; implemented by the
/// handler's own return type.
pub trait LogWebSocketReturn {
    /// Whether this return value is an error worth logging.
    fn should_log_error(&self) -> bool;
}

/// Reports whether a handler's return asks to be logged as an error;
/// the logging sink itself is the host's affair.
pub fn log_websocket_return<R: LogWebSocketReturn>(r: &R) -> bool {
    r.should_log_error()
}

/// The response that completes the handshake: switching protocols, with
/// the connection, upgrade and accept headers and an empty body.
pub fn switching_protocols(ws_accept: String) -> (r: Response)
    ensures
        r.header.status_code == 101,
        r.body@.len() == 0,
        ({
            let e = r.header.values.entries@;
            &&& e.len() == 3
            &&& e[0].0@ == "connection"@
            &&& e[0].1@ == "upgrade"@
            &&& e[1].0@ == "upgrade"@
            &&& e[1].1@ == "websocket"@
            &&& e[2].0@ == "sec-websocket-accept"@
            &&& e[2].1 == ws_accept
        }),
{
    let mut values = HeaderValues::new();
    values.insert("connection", String::from_str("upgrade"));
    let ghost e1 = values.entries@;
    values.insert("upgrade", String::from_str("websocket"));
    let ghost e2 = values.entries@;
    values.insert("sec-websocket-accept", ws_accept);
    proof {
        reveal_strlit("connection");
        reveal_strlit("upgrade");
        reveal_strlit("sec-websocket-accept");
        assert("connection"@.len() != "upgrade"@.len());
        assert("connection"@.len() != "sec-websocket-accept"@.len());
        assert("upgrade"@.len() != "sec-websocket-accept"@.len());
        assert(e1 =~= Seq::<(String, String)>::empty().push(e1.last()));
        assert(e1.drop_last() =~= Seq::<(String, String)>::empty());
        assert(without_key(e1.drop_last(), "upgrade"@) =~= Seq::<(String, String)>::empty());
        assert(e1.last().0@ != "upgrade"@);
        assert(without_key(e1, "upgrade"@) =~= seq![e1.last()]);
        assert(e2 =~= seq![e1.last(), e2.last()]);
        assert(e2.drop_last() =~= seq![e1.last()]);
        assert(e1.last().0@ != "sec-websocket-accept"@);
        assert(e2.last().0@ != "sec-websocket-accept"@);
        assert(e2.drop_last().drop_last() =~= Seq::<(String, String)>::empty());
        assert(without_key(e2.drop_last().drop_last(), "sec-websocket-accept"@) =~= Seq::<
            (String, String),
        >::empty());
        assert(e2.drop_last().last() == e1.last());
        assert(without_key(e2.drop_last(), "sec-websocket-accept"@) =~= seq![e1.last()]);
        assert(without_key(e2, "sec-websocket-accept"@) =~= e2);
        assert(values.entries@ =~= seq![e1.last(), e2.last(), values.entries@.last()]);
    }
    Response {
        header: ResponseHeader { status_code: 101, content_type: String::new(), values },
        body: String::new(),
    }
}

} // verus!
