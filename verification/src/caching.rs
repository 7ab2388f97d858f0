//! Response caching: a random entity tag per cached resource and the
//! `cache-control` / `etag` headers derived from it.

use vstd::prelude::*;
use crate::header::ResponseHeader;
use crate::header::Response;
use crate::header::HeaderValues;
use crate::header::RequestHeader;
use crate::header::lookup;
use crate::header::without_key;
use crate::text::spec_decimal;
use crate::text::str_eq;
use crate::text::u64_to_string;
use vstd::string::StringExecFns;
use rand::Rng;

verus! {

/// One day, the default lifetime of a cached response.
pub const DEFAULT_MAX_AGE_SECS: u64 = 60 * 60 * 24;

/// An alphanumeric ASCII character.
pub open spec fn is_alnum_char(c: char) -> bool {
    ('a' <= c && c <= 'z') || ('A' <= c && c <= 'Z') || ('0' <= c && c <= '9')
}

/// Relies on rand's `thread_rng` with the `Alphanumeric` distribution:
/// every sample is an alphanumeric ASCII character. The value is random,
/// so nothing beyond shape and length is promised.
#[verifier::external_body]
fn random_alphanumeric_30() -> (r: String)
    ensures
        r@.len() == 30,
        forall|i: int| 0 <= i < r@.len() ==> is_alnum_char(#[trigger] r@[i]),
{
    rand::thread_rng().sample_iter(&rand::distributions::Alphanumeric).map(char::from).take(
        30,
    ).collect()
}

/// An entity tag: thirty random alphanumeric characters.
#[derive(Debug, Clone, PartialEq, Eq)]
pub struct Etag(pub String);

impl Etag {
    pub fn new() -> (r: Self)
        ensures
            r.0@.len() == 30,
            forall|i: int| 0 <= i < r.0@.len() ==> is_alnum_char(#[trigger] r.0@[i]),
    {
        Etag(random_alphanumeric_30())
    }

    pub fn as_str(&self) -> (r: &str)
        ensures
            r@ == self.0@,
    {
        self.0.as_str()
    }
}

/// The `cache-control` header value for a lifetime in seconds.
pub open spec fn spec_cache_control(secs: u64) -> Seq<char> {
    "max-age="@ + spec_decimal(secs as int) + ", public"@
}

/// A caching policy: how long a response may be cached, and the entity
/// tag that identifies this incarnation of it.
#[derive(Debug, Clone, PartialEq, Eq)]
pub struct Caching {
    pub max_age_secs: u64,
    pub etag: Etag,
}

impl Caching {
    pub fn new(max_age_secs: u64) -> (r: Self)
        ensures
            r.max_age_secs == max_age_secs,
            r.etag.0@.len() == 30,
    {
        Caching { max_age_secs, etag: Etag::new() }
    }

    /// The default policy: cacheable for one day.
    pub fn default() -> (r: Self)
        ensures
            r.max_age_secs == DEFAULT_MAX_AGE_SECS,
            r.etag.0@.len() == 30,
    {
        Self::new(DEFAULT_MAX_AGE_SECS)
    }

    /// Whether the request's `if-none-match` tag is exactly this
    /// policy's tag, so the cached copy is still fresh. A tag of the
    /// wrong length is rejected without comparing.
    pub fn if_none_match(&self, header: &RequestHeader) -> (r: bool)
        ensures
            r == match lookup(header.values.entries@, "if-none-match"@) {
                Some(v) => v.len() == 30 && self.etag.0@ == v,
                None => false,
            },
    {
        match header.values.value("if-none-match") {
            Some(v) => {
                let len_ok = v.as_str().unicode_len() == 30;
                len_ok && str_eq(self.etag.0.as_str(), v.as_str())
            },
            None => false,
        }
    }

    /// The `cache-control` value this policy asks for.
    pub fn cache_control_string(&self) -> (r: String)
        ensures
            r@ == spec_cache_control(self.max_age_secs),
    {
        let mut r = String::from_str("max-age=");
        let digits = u64_to_string(self.max_age_secs);
        r.append(digits.as_str());
        r.append(", public");
        r
    }

    /// Writes this policy into a response header: `cache-control`
    /// always, and the entity tag only for a plain success, since a tag
    /// makes no sense on a "not found".
    pub fn complete_header(self, header: &mut ResponseHeader)
        ensures
            final(header).status_code == old(header).status_code,
            final(header).content_type == old(header).content_type,
            ({
                let e = final(header).values.entries@;
                let base = without_key(old(header).values.entries@, "cache-control"@);
                if old(header).status_code == 200 {
                    &&& e.len() >= 2
                    &&& e.last().0@ == "etag"@
                    &&& e.last().1 == self.etag.0
                    &&& e.drop_last().last().0@ == "cache-control"@
                    &&& e.drop_last().last().1@ == spec_cache_control(self.max_age_secs)
                    &&& e.drop_last().drop_last() == without_key(base, "etag"@)
                } else {
                    &&& e.len() >= 1
                    &&& e.last().0@ == "cache-control"@
                    &&& e.last().1@ == spec_cache_control(self.max_age_secs)
                    &&& e.drop_last() == base
                }
            }),
    {
        let cc = self.cache_control_string();
        header.values.insert("cache-control", cc);
        if header.status_code == 200 {
            let ghost mid = header.values.entries@;
            header.values.insert("etag", self.etag.0);
            proof {
                let base = without_key(old(header).values.entries@, "cache-control"@);
                assert(mid =~= base.push(mid.last()));
                reveal_strlit("cache-control");
                reveal_strlit("etag");
                assert("cache-control"@.len() != "etag"@.len());
                assert(without_key(base.push(mid.last()), "etag"@) =~= without_key(base, "etag"@)
                    + seq![mid.last()]);
                assert(header.values.entries@.drop_last().drop_last() =~= without_key(
                    base,
                    "etag"@,
                ));
                assert(header.values.entries@.drop_last().last() == mid.last());
            }
        }
    }

    /// The bare "not modified" answer for a fresh cached copy: its
    /// status plus this policy's two caching headers.
    pub fn into_response(self) -> (r: Response)
        ensures
            r.header.status_code == 304,
            r.body@.len() == 0,
            ({
                let e = r.header.values.entries@;
                &&& e.len() == 2
                &&& e[0].0@ == "cache-control"@
                &&& e[0].1@ == spec_cache_control(self.max_age_secs)
                &&& e[1].0@ == "etag"@
                &&& e[1].1 == self.etag.0
            }),
    {
        let cc = self.cache_control_string();
        let mut values = HeaderValues::new();
        values.insert("cache-control", cc);
        let ghost mid = values.entries@;
        values.insert("etag", self.etag.0);
        proof {
            reveal_strlit("cache-control");
            reveal_strlit("etag");
            assert("cache-control"@.len() != "etag"@.len());
            assert(mid =~= Seq::<(String, String)>::empty().push(mid.last()));
            assert(mid.drop_last() =~= Seq::<(String, String)>::empty());
            assert(without_key(mid.drop_last(), "etag"@) =~= Seq::<(String, String)>::empty());
            assert(mid.last().0@ != "etag"@);
            assert(without_key(mid, "etag"@) =~= seq![mid.last()]);
            assert(values.entries@[0] == values.entries@.drop_last().last());
            assert(values.entries@[1] == values.entries@.last());
        }
        Response {
            header: ResponseHeader { status_code: 304, content_type: String::new(), values },
            body: String::new(),
        }
    }
}

} // verus!
