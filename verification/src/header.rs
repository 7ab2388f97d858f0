//! The header model the pool core exchanges with the surrounding HTTP
//! layer: methods, header maps as lists of name/value pairs, and the
//! validity rules under which a malformed header is silently dropped
//! rather than failing the whole request.

use vstd::prelude::*;
use crate::text::spec_upper;
use crate::text::str_eq;
use crate::text::to_ascii_upper;
use vstd::string::StrSliceExecFns;
use vstd::string::StringExecFns;

verus! {

/// An HTTP request method; anything beyond the nine well-known ones is
/// `Other`.
#[derive(Clone, Copy, Debug, PartialEq, Eq, Structural)]
pub enum Method {
    Get,
    Post,
    Put,
    Delete,
    Head,
    Options,
    Connect,
    Patch,
    Trace,
    Other,
}

/// Which method an uppercased name denotes.
pub open spec fn spec_parse_method(up: Seq<char>) -> Method {
    if up == "GET"@ {
        Method::Get
    } else if up == "POST"@ {
        Method::Post
    } else if up == "PUT"@ {
        Method::Put
    } else if up == "DELETE"@ {
        Method::Delete
    } else if up == "HEAD"@ {
        Method::Head
    } else if up == "OPTIONS"@ {
        Method::Options
    } else if up == "CONNECT"@ {
        Method::Connect
    } else if up == "PATCH"@ {
        Method::Patch
    } else if up == "TRACE"@ {
        Method::Trace
    } else {
        Method::Other
    }
}

/// Parses a method name, ASCII-case-insensitively.
pub fn parse_method(s: &str) -> (r: Method)
    ensures
        r == spec_parse_method(spec_upper(s@)),
{
    let u = to_ascii_upper(s);
    let up = u.as_str();
    if str_eq(up, "GET") {
        Method::Get
    } else if str_eq(up, "POST") {
        Method::Post
    } else if str_eq(up, "PUT") {
        Method::Put
    } else if str_eq(up, "DELETE") {
        Method::Delete
    } else if str_eq(up, "HEAD") {
        Method::Head
    } else if str_eq(up, "OPTIONS") {
        Method::Options
    } else if str_eq(up, "CONNECT") {
        Method::Connect
    } else if str_eq(up, "PATCH") {
        Method::Patch
    } else if str_eq(up, "TRACE") {
        Method::Trace
    } else {
        Method::Other
    }
}

/// The canonical, uppercase name of a method. Methods beyond the nine
/// well-known ones are carried without their original token, so they
/// all answer to one name.
pub open spec fn spec_method_name(m: Method) -> Seq<char> {
    match m {
        Method::Get => "GET"@,
        Method::Post => "POST"@,
        Method::Put => "PUT"@,
        Method::Delete => "DELETE"@,
        Method::Head => "HEAD"@,
        Method::Options => "OPTIONS"@,
        Method::Connect => "CONNECT"@,
        Method::Patch => "PATCH"@,
        Method::Trace => "TRACE"@,
        Method::Other => "OTHER"@,
    }
}

pub fn method_name(m: &Method) -> (r: String)
    ensures
        r@ == spec_method_name(*m),
{
    match m {
        Method::Get => String::from_str("GET"),
        Method::Post => String::from_str("POST"),
        Method::Put => String::from_str("PUT"),
        Method::Delete => String::from_str("DELETE"),
        Method::Head => String::from_str("HEAD"),
        Method::Options => String::from_str("OPTIONS"),
        Method::Connect => String::from_str("CONNECT"),
        Method::Patch => String::from_str("PATCH"),
        Method::Trace => String::from_str("TRACE"),
        Method::Other => String::from_str("OTHER"),
    }
}

/// A representable HTTP status code: the three-digit range.
pub open spec fn spec_valid_status(code: u16) -> bool {
    100 <= code && code <= 999
}

/// Whether a number can stand as a response's status code; a render
/// reply outside this range is rejected rather than sent.
pub fn valid_status_code(code: u16) -> (r: bool)
    ensures
        r == spec_valid_status(code),
{
    100 <= code && code <= 999
}

/// A character allowed in a header name: the HTTP token characters.
pub open spec fn is_token_char(c: char) -> bool {
    ||| 'a' <= c && c <= 'z'
    ||| 'A' <= c && c <= 'Z'
    ||| '0' <= c && c <= '9'
    ||| c == '!'
    ||| c == '#'
    ||| c == '$'
    ||| c == '%'
    ||| c == '&'
    ||| c == '\''
    ||| c == '*'
    ||| c == '+'
    ||| c == '-'
    ||| c == '.'
    ||| c == '^'
    ||| c == '_'
    ||| c == '`'
    ||| c == '|'
    ||| c == '~'
}

/// A representable header name: non-empty, token characters only.
pub open spec fn valid_header_name(s: Seq<char>) -> bool {
    s.len() > 0 && forall|i: int| 0 <= i < s.len() ==> is_token_char(#[trigger] s[i])
}

/// A representable header value: visible ASCII, space or tab.
pub open spec fn valid_header_value(s: Seq<char>) -> bool {
    forall|i: int| 0 <= i < s.len() ==> (' ' <= #[trigger] s[i] && s[i] <= '~') || s[i] == '\t'
}

pub fn header_name_valid(s: &str) -> (r: bool)
    ensures
        r == valid_header_name(s@),
{
    let n = s.unicode_len();
    if n == 0 {
        return false;
    }
    let mut i: usize = 0;
    while i < n
        invariant
            i <= n,
            n == s@.len(),
            forall|j: int| 0 <= j < i ==> is_token_char(#[trigger] s@[j]),
        decreases n - i,
    {
        let c = s.get_char(i);
        let ok = ('a' <= c && c <= 'z') || ('A' <= c && c <= 'Z') || ('0' <= c && c <= '9') || c
            == '!' || c == '#' || c == '$' || c == '%' || c == '&' || c == '\'' || c == '*' || c
            == '+' || c == '-' || c == '.' || c == '^' || c == '_' || c == '`' || c == '|' || c
            == '~';
        if !ok {
            return false;
        }
        i = i + 1;
    }
    true
}

pub fn header_value_valid(s: &str) -> (r: bool)
    ensures
        r == valid_header_value(s@),
{
    let n = s.unicode_len();
    let mut i: usize = 0;
    while i < n
        invariant
            i <= n,
            n == s@.len(),
            forall|j: int|
                0 <= j < i ==> (' ' <= #[trigger] s@[j] && s@[j] <= '~') || s@[j] == '\t',
        decreases n - i,
    {
        let c = s.get_char(i);
        if !((' ' <= c && c <= '~') || c == '\t') {
            return false;
        }
        i = i + 1;
    }
    true
}

/// A header pair that can be represented as it stands.
pub open spec fn header_pair_ok(p: (String, String)) -> bool {
    valid_header_name(p.0@) && valid_header_value(p.1@)
}

/// The pairs that survive sanitizing, in their original order: exactly
/// those with a representable name and value. A malformed pair is
/// dropped silently rather than failing the whole request.
pub open spec fn kept_headers(s: Seq<(String, String)>) -> Seq<(String, String)>
    decreases s.len(),
{
    if s.len() == 0 {
        s
    } else {
        kept_headers(s.drop_last()) + (if header_pair_ok(s.last()) {
            seq![s.last()]
        } else {
            Seq::empty()
        })
    }
}

/// Drops every header pair whose name or value cannot be represented.
pub fn sanitize_headers(hs: &Vec<(String, String)>) -> (r: Vec<(String, String)>)
    ensures
        r@ == kept_headers(hs@),
{
    let mut r: Vec<(String, String)> = Vec::new();
    let mut i: usize = 0;
    while i < hs.len()
        invariant
            i <= hs@.len(),
            r@ == kept_headers(hs@.subrange(0, i as int)),
        decreases hs@.len() - i,
    {
        let name_ok = header_name_valid(hs[i].0.as_str());
        let value_ok = header_value_valid(hs[i].1.as_str());
        if name_ok && value_ok {
            let k = hs[i].0.clone();
            let v = hs[i].1.clone();
            r.push((k, v));
        }
        proof {
            let pre = hs@.subrange(0, i as int);
            let cur = hs@.subrange(0, i + 1 as int);
            assert(cur.drop_last() =~= pre);
            assert(cur.last() == hs@[i as int]);
            assert(r@ =~= kept_headers(cur));
        }
        i = i + 1;
    }
    proof {
        assert(hs@.subrange(0, hs@.len() as int) =~= hs@);
    }
    r
}

/// An ordered header map; a later `insert` of a name replaces what an
/// earlier one put there.
pub struct HeaderValues {
    pub entries: Vec<(String, String)>,
}

/// The value stored under `key`: the first pair with that name.
pub open spec fn lookup(entries: Seq<(String, String)>, key: Seq<char>) -> Option<Seq<char>>
    decreases entries.len(),
{
    if entries.len() == 0 {
        None
    } else if entries[0].0@ == key {
        Some(entries[0].1@)
    } else {
        lookup(entries.skip(1), key)
    }
}

/// The entries with every pair named `key` removed.
pub open spec fn without_key(entries: Seq<(String, String)>, key: Seq<char>) -> Seq<
    (String, String),
>
    decreases entries.len(),
{
    if entries.len() == 0 {
        entries
    } else {
        without_key(entries.drop_last(), key) + (if entries.last().0@ == key {
            Seq::empty()
        } else {
            seq![entries.last()]
        })
    }
}

impl HeaderValues {
    pub fn new() -> (r: Self)
        ensures
            r.entries@ =~= Seq::<(String, String)>::empty(),
    {
        HeaderValues { entries: Vec::new() }
    }

    /// The value stored under `key`, if any.
    pub fn value(&self, key: &str) -> (r: Option<&String>)
        ensures
            match r {
                Some(v) => lookup(self.entries@, key@) == Some(v@),
                None => lookup(self.entries@, key@) is None,
            },
    {
        let mut i: usize = 0;
        proof {
            assert(self.entries@.skip(0) =~= self.entries@);
        }
        while i < self.entries.len()
            invariant
                i <= self.entries@.len(),
                lookup(self.entries@, key@) == lookup(self.entries@.skip(i as int), key@),
            decreases self.entries@.len() - i,
        {
            let hit = str_eq(self.entries[i].0.as_str(), key);
            proof {
                let tail = self.entries@.skip(i as int);
                assert(tail[0] == self.entries@[i as int]);
                assert(tail.skip(1) =~= self.entries@.skip(i + 1 as int));
            }
            if hit {
                return Some(&self.entries[i].1);
            }
            i = i + 1;
        }
        proof {
            assert(self.entries@.skip(self.entries@.len() as int).len() == 0);
        }
        None
    }

    /// Stores `value` under `key`, replacing whatever was there.
    pub fn insert(&mut self, key: &str, value: String)
        ensures
            final(self).entries@.len() == without_key(old(self).entries@, key@).len() + 1,
            final(self).entries@.drop_last() == without_key(old(self).entries@, key@),
            final(self).entries@.last().0@ == key@,
            final(self).entries@.last().1 == value,
    {
        let mut kept: Vec<(String, String)> = Vec::new();
        let mut i: usize = 0;
        while i < self.entries.len()
            invariant
                i <= self.entries@.len(),
                kept@ == without_key(self.entries@.subrange(0, i as int), key@),
            decreases self.entries@.len() - i,
        {
            let same = str_eq(self.entries[i].0.as_str(), key);
            if !same {
                let k = self.entries[i].0.clone();
                let v = self.entries[i].1.clone();
                kept.push((k, v));
            }
            proof {
                let pre = self.entries@.subrange(0, i as int);
                let cur = self.entries@.subrange(0, i + 1 as int);
                assert(cur.drop_last() =~= pre);
                assert(cur.last() == self.entries@[i as int]);
                assert(kept@ =~= without_key(cur, key@));
            }
            i = i + 1;
        }
        proof {
            assert(self.entries@.subrange(0, self.entries@.len() as int) =~= self.entries@);
        }
        let k = String::from_str(key);
        kept.push((k, value));
        proof {
            assert(kept@.drop_last() =~= without_key(self.entries@, key@));
        }
        self.entries = kept;
    }
}

/// The description of one request as it reaches the render pipeline.
pub struct RequestHeader {
    /// The requestor's address, as text.
    pub address: String,
    pub method: Method,
    /// Path plus query.
    pub uri: String,
    pub values: HeaderValues,
}

/// The description of one response as it leaves the render pipeline.
pub struct ResponseHeader {
    pub status_code: u16,
    pub content_type: String,
    pub values: HeaderValues,
}

/// A whole response: its header and a textual body.
pub struct Response {
    pub header: ResponseHeader,
    pub body: String,
}

} // verus!
