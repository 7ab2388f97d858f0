//! Route path parameters: the values matched for one request, and the
//! parameter names declared by a route template such as
//! `/hello/{name}` or `/files/{*?rest}`, where `{{` and `}}` escape
//! literal braces.

use vstd::prelude::*;
use crate::header::lookup;
use crate::text::push_char;
use crate::text::str_eq;
use vstd::string::StrSliceExecFns;

verus! {

/// The parameter values matched for one request, keyed by name.
#[derive(Debug, Clone)]
pub struct PathParams {
    pub inner: Vec<(String, String)>,
}

impl PathParams {
    pub fn new(params: Vec<(String, String)>) -> (r: Self)
        ensures
            r.inner == params,
    {
        PathParams { inner: params }
    }

    /// Whether a value was matched under `key`.
    pub fn contains(&self, key: &str) -> (r: bool)
        ensures
            r == (lookup(self.inner@, key@) is Some),
    {
        let mut i: usize = 0;
        proof {
            assert(self.inner@.skip(0) =~= self.inner@);
        }
        while i < self.inner.len()
            invariant
                i <= self.inner@.len(),
                lookup(self.inner@, key@) == lookup(self.inner@.skip(i as int), key@),
            decreases self.inner@.len() - i,
        {
            let hit = str_eq(self.inner[i].0.as_str(), key);
            proof {
                let tail = self.inner@.skip(i as int);
                assert(tail[0] == self.inner@[i as int]);
                assert(tail.skip(1) =~= self.inner@.skip(i + 1 as int));
            }
            if hit {
                return true;
            }
            i = i + 1;
        }
        false
    }

    /// The value matched under `key`. An optional rest parameter
    /// (`{*?rest}`) may be declared yet unmatched, so a name the route
    /// declares can still yield `None`.
    pub fn get(&self, key: &str) -> (r: Option<&str>)
        ensures
            match r {
                Some(v) => lookup(self.inner@, key@) == Some(v@),
                None => lookup(self.inner@, key@) is None,
            },
    {
        let mut i: usize = 0;
        proof {
            assert(self.inner@.skip(0) =~= self.inner@);
        }
        while i < self.inner.len()
            invariant
                i <= self.inner@.len(),
                lookup(self.inner@, key@) == lookup(self.inner@.skip(i as int), key@),
            decreases self.inner@.len() - i,
        {
            let hit = str_eq(self.inner[i].0.as_str(), key);
            proof {
                let tail = self.inner@.skip(i as int);
                assert(tail[0] == self.inner@[i as int]);
                assert(tail.skip(1) =~= self.inner@.skip(i + 1 as int));
            }
            if hit {
                return Some(self.inner[i].1.as_str());
            }
            i = i + 1;
        }
        None
    }

    /// Parses the value matched under `key`; a missing key is read as
    /// the empty string, so an unmatched optional rest parameter parses
    /// like an empty one. The parse itself belongs to the caller's
    /// `FromStr` implementation, of which nothing is promised, and a
    /// failure of it comes back as `None`.
    pub fn parse<T: core::str::FromStr>(&self, key: &str) -> Option<T> {
        match self.get(key) {
            Some(v) => parse_str(v),
            None => parse_str(""),
        }
    }
}

/// Relies on `str::parse` of std: the result belongs to the caller's
/// `FromStr` implementation, so nothing is promised of it.
#[verifier::external_body]
fn parse_str<T: core::str::FromStr>(s: &str) -> Option<T> {
    s.parse().ok()
}

/// Where the parameter name that opens at `j` closes: the index of the
/// matching `}`. There is none when the name runs into a `{`, into the
/// end of the template, or into a `}}` escape.
pub open spec fn scan_name(s: Seq<char>, j: int) -> Option<int>
    decreases s.len() - j,
{
    if j < 0 || j >= s.len() {
        None
    } else if s[j] == '{' {
        None
    } else if s[j] == '}' {
        if j + 1 < s.len() && s[j + 1] == '}' {
            None
        } else {
            Some(j)
        }
    } else {
        scan_name(s, j + 1)
    }
}

proof fn lemma_scan_name_props(s: Seq<char>, j: int)
    requires
        0 <= j,
        scan_name(s, j) is Some,
    ensures
        ({
            let k = scan_name(s, j)->Some_0;
            &&& j <= k < s.len()
            &&& s[k] == '}'
            &&& !(k + 1 < s.len() && s[k + 1] == '}')
            &&& forall|m: int| j <= m < k ==> s[m] != '}' && s[m] != '{'
        }),
    decreases s.len() - j,
{
    if j < s.len() && s[j] != '{' && s[j] != '}' {
        lemma_scan_name_props(s, j + 1);
    }
}

/// A name with every leading `*?` marker removed.
pub open spec fn strip_opt_rest(n: Seq<char>) -> Seq<char>
    decreases n.len(),
{
    if n.len() >= 2 && n[0] == '*' && n[1] == '?' {
        strip_opt_rest(n.skip(2))
    } else {
        n
    }
}

/// A name with every leading `*` removed.
pub open spec fn strip_rest(n: Seq<char>) -> Seq<char>
    decreases n.len(),
{
    if n.len() >= 1 && n[0] == '*' {
        strip_rest(n.skip(1))
    } else {
        n
    }
}

/// The declared name of a parameter: what stands between the braces,
/// without its `*?` or `*` rest markers.
pub open spec fn trim_name(n: Seq<char>) -> Seq<char> {
    strip_rest(strip_opt_rest(n))
}

/// The parameter names a template declares from position `i` on, in
/// order of appearance; `None` for a malformed template (an unclosed or
/// nested parameter, or an escape inside one), on which parsing panics.
pub open spec fn names_from(s: Seq<char>, i: int) -> Option<Seq<Seq<char>>>
    decreases s.len() - i,
{
    if i < 0 || i >= s.len() {
        Some(Seq::empty())
    } else if s[i] != '{' {
        names_from(s, i + 1)
    } else if i + 1 < s.len() && s[i + 1] == '{' {
        names_from(s, i + 2)
    } else {
        match scan_name(s, i + 1) {
            None => None,
            Some(j) => if i < j && j < s.len() {
                match names_from(s, j + 1) {
                    None => None,
                    Some(rest) => Some(seq![trim_name(s.subrange(i + 1, j))] + rest),
                }
            } else {
                None
            },
        }
    }
}

/// A template the parser accepts: every `{` opens a parameter that
/// closes properly or is escaped.
pub open spec fn valid_template(s: Seq<char>) -> bool {
    names_from(s, 0) is Some
}

/// The parameter names a route template declares.
#[derive(Debug, Clone)]
pub struct ParamsNames {
    pub list: Vec<String>,
}

impl ParamsNames {
    /// Reads the parameter names out of a route template, in order of
    /// appearance. A malformed template is a programming error in the
    /// route registration, so it is ruled out rather than handled.
    pub fn parse(s: &str) -> (r: Self)
        requires
            valid_template(s@),
        ensures
            r.list@.map_values(|n: String| n@) == names_from(s@, 0)->Some_0,
    {
        let n = s.unicode_len();
        let mut list: Vec<String> = Vec::new();
        let mut i: usize = 0;
        while i < n
            invariant
                i <= n,
                n == s@.len(),
                names_from(s@, 0) is Some,
                names_from(s@, i as int) is Some,
                list@.map_values(|nm: String| nm@) + names_from(s@, i as int)->Some_0
                    == names_from(s@, 0)->Some_0,
            decreases n - i,
        {
            let c = s.get_char(i);
            if c != '{' {
                i = i + 1;
            } else if i + 1 < n && s.get_char(i + 1) == '{' {
                i = i + 2;
            } else {
                proof {
                    lemma_scan_name_props(s@, i + 1);
                }
                let ghost k = scan_name(s@, i + 1)->Some_0;
                let mut j = i + 1;
                while j < n
                    invariant
                        n == s@.len(),
                        i + 1 <= j <= k < n,
                        k == scan_name(s@, i + 1)->Some_0,
                        scan_name(s@, i + 1) is Some,
                        s@[k as int] == '}',
                        forall|m: int| i + 1 <= m < k ==> s@[m] != '}' && s@[m] != '{',
                    ensures
                        j == k,
                    decreases n - j,
                {
                    let cj = s.get_char(j);
                    if cj == '}' {
                        break ;
                    }
                    proof {
                        assert(j < k);
                    }
                    j = j + 1;
                }
                let mut start = i + 1;
                while start + 1 < j && s.get_char(start) == '*' && s.get_char(start + 1) == '?'
                    invariant
                        n == s@.len(),
                        i + 1 <= start <= j < n,
                        strip_opt_rest(s@.subrange(i + 1, j as int)) == strip_opt_rest(
                            s@.subrange(start as int, j as int),
                        ),
                    decreases j - start,
                {
                    proof {
                        let cur = s@.subrange(start as int, j as int);
                        assert(cur[0] == s@[start as int]);
                        assert(cur[1] == s@[start + 1 as int]);
                        assert(cur.skip(2) =~= s@.subrange(start + 2 as int, j as int));
                    }
                    start = start + 2;
                }
                proof {
                    let cur = s@.subrange(start as int, j as int);
                    assert(!(cur.len() >= 2 && cur[0] == '*' && cur[1] == '?'));
                    assert(strip_opt_rest(s@.subrange(i + 1, j as int)) == cur);
                }
                while start < j && s.get_char(start) == '*'
                    invariant
                        n == s@.len(),
                        i + 1 <= start <= j < n,
                        strip_rest(strip_opt_rest(s@.subrange(i + 1, j as int))) == strip_rest(
                            s@.subrange(start as int, j as int),
                        ),
                    decreases j - start,
                {
                    proof {
                        let cur = s@.subrange(start as int, j as int);
                        assert(cur[0] == s@[start as int]);
                        assert(cur.skip(1) =~= s@.subrange(start + 1 as int, j as int));
                    }
                    start = start + 1;
                }
                proof {
                    let cur = s@.subrange(start as int, j as int);
                    assert(!(cur.len() >= 1 && cur[0] == '*'));
                    assert(trim_name(s@.subrange(i + 1, j as int)) == cur);
                }
                let mut name = String::new();
                let mut p = start;
                while p < j
                    invariant
                        n == s@.len(),
                        start <= p <= j < n,
                        name@ == s@.subrange(start as int, p as int),
                    decreases j - p,
                {
                    push_char(&mut name, s.get_char(p));
                    proof {
                        assert(name@ =~= s@.subrange(start as int, p + 1 as int));
                    }
                    p = p + 1;
                }
                proof {
                    assert(name@ == trim_name(s@.subrange(i + 1, j as int)));
                }
                let ghost pre = list@;
                list.push(name);
                proof {
                    assert(names_from(s@, i as int) == match names_from(s@, j + 1 as int) {
                        None => None::<Seq<Seq<char>>>,
                        Some(rest) => Some(seq![trim_name(s@.subrange(i + 1, j as int))] + rest),
                    });
                    assert(list@.map_values(|nm: String| nm@) =~= pre.map_values(
                        |nm: String| nm@,
                    ).push(name@));
                    assert(list@.map_values(|nm: String| nm@) + names_from(s@, j + 1 as int)->Some_0
                        =~= pre.map_values(|nm: String| nm@) + names_from(s@, i as int)->Some_0);
                }
                i = j + 1;
            }
        }
        proof {
            assert(names_from(s@, n as int)->Some_0 =~= Seq::<Seq<char>>::empty());
            assert(list@.map_values(|nm: String| nm@) + Seq::<Seq<char>>::empty() =~= list@
                .map_values(|nm: String| nm@));
        }
        ParamsNames { list }
    }

    /// Whether the template declared a parameter named `key`.
    pub fn contains(&self, key: &str) -> (r: bool)
        ensures
            r == self.list@.map_values(|n: String| n@).contains(key@),
    {
        let mut i: usize = 0;
        while i < self.list.len()
            invariant
                i <= self.list@.len(),
                forall|m: int| 0 <= m < i ==> (#[trigger] self.list@[m])@ != key@,
            decreases self.list@.len() - i,
        {
            let hit = str_eq(self.list[i].as_str(), key);
            if hit {
                proof {
                    assert(self.list@.map_values(|n: String| n@)[i as int] == key@);
                }
                return true;
            }
            i = i + 1;
        }
        false
    }

    /// Whether the template declared no parameter at all.
    pub fn is_empty(&self) -> (r: bool)
        ensures
            r == (self.list@.len() == 0),
    {
        self.list.is_empty()
    }
}

} // verus!
