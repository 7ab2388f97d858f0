//! Route bookkeeping: the per-method buckets routes are filed under,
//! and the expansion of an optional-rest template (`{*?rest}`) into the
//! plain routes that together catch every shape of such a path.

use vstd::prelude::*;
use crate::header::Method;
use vstd::string::StrSliceExecFns;
use vstd::string::StringExecFns;

verus! {

/// The bucket a method's routes are filed under.
pub open spec fn spec_method_num(method: Option<Method>) -> int {
    match method {
        Some(Method::Get) => 0,
        Some(Method::Post) => 1,
        Some(Method::Put) => 2,
        Some(Method::Delete) => 3,
        Some(Method::Head) => 4,
        Some(Method::Options) => 5,
        Some(Method::Connect) => 6,
        Some(Method::Patch) => 7,
        Some(Method::Trace) => 8,
        _ => 9,
    }
}

/// Files a method into its route bucket; anything unknown, and the
/// any-method case, share the last bucket.
pub fn method_to_num(method: Option<&Method>) -> (r: usize)
    ensures
        r == spec_method_num(match method {
            Some(m) => Some(*m),
            None => None,
        }),
        r <= 9,
{
    match method {
        Some(Method::Get) => 0,
        Some(Method::Post) => 1,
        Some(Method::Put) => 2,
        Some(Method::Delete) => 3,
        Some(Method::Head) => 4,
        Some(Method::Options) => 5,
        Some(Method::Connect) => 6,
        Some(Method::Patch) => 7,
        Some(Method::Trace) => 8,
        _ => 9,
    }
}

/// Whether the optional-rest marker `{*?` opens at position `i`.
pub open spec fn rest_marker_at(s: Seq<char>, i: int) -> bool {
    0 <= i && i + 2 < s.len() && s[i] == '{' && s[i + 1] == '*' && s[i + 2] == '?'
}

/// The last position at or below `i` where `{*?` opens.
pub open spec fn last_rest_marker(s: Seq<char>, i: int) -> Option<int>
    decreases i + 1,
{
    if i < 0 {
        None
    } else if rest_marker_at(s, i) {
        Some(i)
    } else {
        last_rest_marker(s, i - 1)
    }
}

/// A found marker is a real one: it lies below the search start and the
/// three marker characters fit before the end.
pub proof fn lemma_last_rest_marker_found(s: Seq<char>, j: int)
    requires
        last_rest_marker(s, j) is Some,
    ensures
        rest_marker_at(s, last_rest_marker(s, j)->Some_0),
        last_rest_marker(s, j)->Some_0 <= j,
    decreases j + 1,
{
    if j >= 0 && !rest_marker_at(s, j) {
        lemma_last_rest_marker_found(s, j - 1);
    }
}

/// Splits an optional-rest template. A path ending in `}` whose last
/// parameter is `{*?rest}` becomes the root path before the marker and
/// the same template with a plain `{*rest}`; any other path is left
/// alone. Registering the root, the root without its trailing slash and
/// the plain-rest template together catches every shape of the path.
pub fn optional_rest_path(path: &str) -> (r: Option<(String, String)>)
    ensures
        match r {
            None => path@.len() == 0 || path@.last() != '}' || last_rest_marker(
                path@,
                path@.len() - 3,
            ) is None,
            Some(pair) => {
                let i = last_rest_marker(path@, path@.len() - 3)->Some_0;
                &&& path@.len() > 0
                &&& path@.last() == '}'
                &&& last_rest_marker(path@, path@.len() - 3) is Some
                &&& pair.0@ == path@.subrange(0, i)
                &&& pair.1@ == path@.subrange(0, i) + "{*"@ + path@.subrange(
                    i + 3,
                    path@.len() as int,
                )
            },
        },
{
    let n = path.unicode_len();
    if n == 0 {
        return None;
    }
    if path.get_char(n - 1) != '}' {
        return None;
    }
    if n < 3 {
        return None;
    }
    let mut j = n - 2;
    proof {
        assert(last_rest_marker(path@, n - 3) == last_rest_marker(path@, j - 1)) by {
            assert(!rest_marker_at(path@, n - 2));
        };
    }
    while j > 0
        invariant
            n == path@.len(),
            3 <= n,
            path@.last() == '}',
            j <= n - 2,
            last_rest_marker(path@, n - 3) == last_rest_marker(path@, j as int - 1),
        decreases j,
    {
        j = j - 1;
        let hit = path.get_char(j) == '{' && path.get_char(j + 1) == '*' && path.get_char(j + 2)
            == '?';
        if hit {
            proof {
                assert(rest_marker_at(path@, j as int));
                assert(last_rest_marker(path@, j as int) == Some(j as int));
                assert(last_rest_marker(path@, n - 3) == Some(j as int));
            }
            let root = String::from_str(path.substring_char(0, j));
            let mut rest = root.clone();
            rest.append("{*");
            rest.append(path.substring_char(j + 3, n));
            return Some((root, rest));
        }
        proof {
            assert(!rest_marker_at(path@, j as int));
        }
    }
    None
}

#[verifier::external_type_specification]
#[verifier::external_body]
#[verifier::reject_recursive_types(T)]
pub struct ExMatchitRouter<T>(matchit::Router<T>);

#[verifier::external_type_specification]
#[verifier::external_body]
pub struct ExMatchitInsertError(matchit::InsertError);

/// What a route table holds: the value filed under each registered
/// template.
pub uninterp spec fn router_routes(r: matchit::Router<usize>) -> Map<Seq<char>, usize>;

/// Which entry a path resolves to in a route table, and the parameter
/// values extracted on the way: matchit's matching relation, a function
/// of the registered templates and the path alone.
pub uninterp spec fn route_match(routes: Map<Seq<char>, usize>, path: Seq<char>) -> Option<
    (usize, Seq<(Seq<char>, Seq<char>)>),
>;

/// Whether matchit accepts registering `template` into a table that
/// holds `routes`: a refusal — a malformed template or a conflict with a
/// registered one — depends on the registered templates and the new one
/// alone, never on the value filed under it.
pub uninterp spec fn route_accepts(routes: Map<Seq<char>, usize>, template: Seq<char>) -> bool;

/// A route table with nothing in it.
pub open spec fn no_routes() -> Map<Seq<char>, usize> {
    Map::empty()
}

/// Relies on matchit's `Router::new`: a fresh table holds no route and
/// matches no path at all.
#[verifier::external_body]
fn new_table() -> (r: matchit::Router<usize>)
    ensures
        router_routes(r) == no_routes(),
        forall|path: Seq<char>| #[trigger] route_match(router_routes(r), path) is None,
{
    matchit::Router::new()
}

/// Relies on matchit's `Router::insert`: registering a template files
/// the value under it, and succeeds exactly when matchit accepts the
/// template against what the table holds. A refused template leaves the
/// error; what the table holds then is not relied on.
#[verifier::external_body]
fn insert_table(r: &mut matchit::Router<usize>, route: &str, value: usize) -> (res: Result<
    (),
    matchit::InsertError,
>)
    ensures
        res is Ok ==> router_routes(*final(r)) == router_routes(*old(r)).insert(route@, value),
        (res is Ok) == route_accepts(router_routes(*old(r)), route@),
{
    r.insert(route, value)
}

/// Relies on matchit's `Router::at`: resolves a path against the
/// registered templates; which template wins and which parameter values
/// are extracted depend on the table and the path alone.
#[verifier::external_body]
fn at_table(r: &matchit::Router<usize>, path: &str) -> (res: Option<(usize, Vec<(String, String)>)>)
    ensures
        match res {
            Some(found) => route_match(router_routes(*r), path@) == Some(
                (found.0, found.1@.map_values(|p: (String, String)| (p.0@, p.1@))),
            ),
            None => route_match(router_routes(*r), path@) is None,
        },
{
    match r.at(path) {
        Ok(m) => Some(
            (*m.value, m.params.iter().map(|(k, v)| (k.to_string(), v.to_string())).collect()),
        ),
        Err(_) => None,
    }
}

/// Why a route template was refused.
#[derive(Debug)]
pub enum RouteInsertError {
    /// The template conflicts with this already-registered one.
    Conflict(String),
    /// More than one parameter in one segment.
    InvalidParamSegment,
    /// A parameter with a bad name or unmatched braces.
    InvalidParam,
    /// A catch-all parameter somewhere other than the end.
    InvalidCatchAll,
    /// A refusal this library has no name for.
    Other,
}

/// Relies on matchit's `InsertError` cases; moves the conflicting
/// route's text across, one case each.
#[verifier::external_body]
fn insert_error_kind(e: matchit::InsertError) -> RouteInsertError {
    match e {
        matchit::InsertError::Conflict { with } => RouteInsertError::Conflict(with),
        matchit::InsertError::InvalidParamSegment => RouteInsertError::InvalidParamSegment,
        matchit::InsertError::InvalidParam => RouteInsertError::InvalidParam,
        matchit::InsertError::InvalidCatchAll => RouteInsertError::InvalidCatchAll,
        _ => RouteInsertError::Other,
    }
}

/// One registered entry: a handler's value, or an alias naming the
/// template that holds the value — the optional-rest expansion files the
/// extra templates as aliases of the root one.
pub enum Route<T> {
    Value(T),
    OtherRoute(String),
}

/// The value and extracted parameters a path resolves to: the bucket's
/// table picks an entry; an alias is followed once and must land on a
/// value, while the parameters of the original match are kept.
pub open spec fn spec_at<T>(
    values: Seq<Route<T>>,
    routes: Map<Seq<char>, usize>,
    path: Seq<char>,
) -> Option<(T, Seq<(Seq<char>, Seq<char>)>)> {
    match route_match(routes, path) {
        None => None,
        Some(found) => {
            if found.0 < values.len() {
                match values[found.0 as int] {
                    Route::Value(v) => Some((v, found.1)),
                    Route::OtherRoute(p) => match route_match(routes, p@) {
                        None => None,
                        Some(second) => {
                            if second.0 < values.len() {
                                match values[second.0 as int] {
                                    Route::Value(v) => Some((v, found.1)),
                                    Route::OtherRoute(_) => None,
                                }
                            } else {
                                None
                            }
                        },
                    },
                }
            } else {
                None
            }
        },
    }
}

/// Routes filed under per-method buckets, matched by matchit's tables.
pub struct MethodRouter<T> {
    /// The registered handlers and aliases; a table resolves a path to
    /// an index into this list.
    pub values: Vec<Route<T>>,
    /// One table per method bucket.
    pub tables: Vec<matchit::Router<usize>>,
}

impl<T> MethodRouter<T> {
    pub fn new() -> (r: Self)
        ensures
            r.values@.len() == 0,
            r.tables@.len() == 10,
            forall|b: int|
                0 <= b < 10 ==> router_routes(#[trigger] r.tables@[b]) == Map::<
                    Seq<char>,
                    usize,
                >::empty(),
            forall|b: int, path: Seq<char>|
                0 <= b < 10 ==> #[trigger] route_match(router_routes(r.tables@[b]), path)
                    is None,
    {
        let mut tables: Vec<matchit::Router<usize>> = Vec::new();
        let mut i: usize = 0;
        while i < 10
            invariant
                i <= 10,
                tables@.len() == i,
                forall|b: int|
                    0 <= b < i ==> router_routes(#[trigger] tables@[b]) == Map::<
                        Seq<char>,
                        usize,
                    >::empty(),
                forall|b: int, path: Seq<char>|
                    0 <= b < i ==> #[trigger] route_match(router_routes(tables@[b]), path)
                        is None,
            decreases 10 - i,
        {
            tables.push(new_table());
            i = i + 1;
        }
        MethodRouter { values: Vec::new(), tables }
    }

    /// Registers a route under its method bucket. A plain template is
    /// filed as it stands; an optional-rest template (`{*?rest}`) is
    /// expanded so that the bare root, the root without its trailing
    /// slash and the rest-carrying paths all reach the same value.
    pub fn insert(&mut self, method: Option<&Method>, path: &str, value: T) -> (r: Result<
        (),
        RouteInsertError,
    >)
        requires
            old(self).tables@.len() == 10,
        ensures
            final(self).tables@.len() == 10,
            ({
                let num = spec_method_num(match method {
                    Some(m) => Some(*m),
                    None => None,
                });
                forall|b: int|
                    0 <= b < 10 && b != num ==> router_routes(#[trigger] final(self).tables@[b])
                        == router_routes(old(self).tables@[b])
            }),
            (path@.len() == 0 || path@.last() != '}' || last_rest_marker(
                path@,
                path@.len() - 3,
            ) is None) ==> ({
                let num = spec_method_num(match method {
                    Some(m) => Some(*m),
                    None => None,
                });
                (r is Ok) == route_accepts(router_routes(old(self).tables@[num]), path@)
            }),
            path@.len() > 0 && path@.last() == '}' && last_rest_marker(
                path@,
                path@.len() - 3,
            ) is Some && !(last_rest_marker(path@, path@.len() - 3)->Some_0 > 1 && path@[
                last_rest_marker(path@, path@.len() - 3)->Some_0 - 1
            ] == '/') ==> ({
                let num = spec_method_num(match method {
                    Some(m) => Some(*m),
                    None => None,
                });
                let i = last_rest_marker(path@, path@.len() - 3)->Some_0;
                let root = path@.subrange(0, i);
                let rest = path@.subrange(0, i) + "{*"@ + path@.subrange(i + 3, path@.len() as int);
                let n0 = old(self).values@.len() as int;
                let t0 = router_routes(old(self).tables@[num]);
                (r is Ok) == (route_accepts(t0, root) && route_accepts(
                    t0.insert(root, n0 as usize),
                    rest,
                ))
            }),
            path@.len() > 0 && path@.last() == '}' && last_rest_marker(
                path@,
                path@.len() - 3,
            ) is Some && (last_rest_marker(path@, path@.len() - 3)->Some_0 > 1 && path@[
                last_rest_marker(path@, path@.len() - 3)->Some_0 - 1
            ] == '/') ==> ({
                let num = spec_method_num(match method {
                    Some(m) => Some(*m),
                    None => None,
                });
                let i = last_rest_marker(path@, path@.len() - 3)->Some_0;
                let root = path@.subrange(0, i);
                let rest = path@.subrange(0, i) + "{*"@ + path@.subrange(i + 3, path@.len() as int);
                let n0 = old(self).values@.len() as int;
                let t0 = router_routes(old(self).tables@[num]);
                (r is Ok) == (route_accepts(t0, root) && route_accepts(
                    t0.insert(root, n0 as usize),
                    root.drop_last(),
                ) && route_accepts(
                    t0.insert(root, n0 as usize).insert(root.drop_last(), (n0 + 1) as usize),
                    rest,
                ))
            }),
            r is Ok && (path@.len() == 0 || path@.last() != '}' || last_rest_marker(
                path@,
                path@.len() - 3,
            ) is None) ==> {
                let num = spec_method_num(match method {
                    Some(m) => Some(*m),
                    None => None,
                });
                &&& final(self).values@ == old(self).values@.push(Route::Value(value))
                &&& router_routes(final(self).tables@[num]) == router_routes(
                    old(self).tables@[num],
                ).insert(path@, old(self).values@.len() as usize)
            },
            r is Ok && path@.len() > 0 && path@.last() == '}' && last_rest_marker(
                path@,
                path@.len() - 3,
            ) is Some ==> {
                let i = last_rest_marker(path@, path@.len() - 3)->Some_0;
                let root = path@.subrange(0, i);
                let n0 = old(self).values@.len() as int;
                &&& final(self).values@.subrange(0, n0) == old(self).values@
                &&& final(self).values@[n0] == Route::<T>::Value(value)
                &&& final(self).values@.last() is OtherRoute
                &&& final(self).values@.last()->OtherRoute_0@ == root
            },
            r is Ok && path@.len() > 0 && path@.last() == '}' && last_rest_marker(
                path@,
                path@.len() - 3,
            ) is Some && !(last_rest_marker(path@, path@.len() - 3)->Some_0 > 1 && path@[
                last_rest_marker(path@, path@.len() - 3)->Some_0 - 1
            ] == '/') ==> {
                let num = spec_method_num(match method {
                    Some(m) => Some(*m),
                    None => None,
                });
                let i = last_rest_marker(path@, path@.len() - 3)->Some_0;
                let root = path@.subrange(0, i);
                let rest = path@.subrange(0, i) + "{*"@ + path@.subrange(i + 3, path@.len() as int);
                let n0 = old(self).values@.len() as int;
                &&& final(self).values@.len() == n0 + 2
                &&& router_routes(final(self).tables@[num]) == router_routes(
                    old(self).tables@[num],
                ).insert(root, n0 as usize).insert(rest, (n0 + 1) as usize)
            },
            r is Ok && path@.len() > 0 && path@.last() == '}' && last_rest_marker(
                path@,
                path@.len() - 3,
            ) is Some && (last_rest_marker(path@, path@.len() - 3)->Some_0 > 1 && path@[
                last_rest_marker(path@, path@.len() - 3)->Some_0 - 1
            ] == '/') ==> {
                let num = spec_method_num(match method {
                    Some(m) => Some(*m),
                    None => None,
                });
                let i = last_rest_marker(path@, path@.len() - 3)->Some_0;
                let root = path@.subrange(0, i);
                let rest = path@.subrange(0, i) + "{*"@ + path@.subrange(i + 3, path@.len() as int);
                let n0 = old(self).values@.len() as int;
                &&& final(self).values@.len() == n0 + 3
                &&& final(self).values@[n0 + 1] is OtherRoute
                &&& final(self).values@[n0 + 1]->OtherRoute_0@ == root
                &&& router_routes(final(self).tables@[num]) == router_routes(
                    old(self).tables@[num],
                ).insert(root, n0 as usize).insert(root.drop_last(), (n0 + 1) as usize).insert(
                    rest,
                    (n0 + 2) as usize,
                )
            },
    {
        let num = method_to_num(method);
        match optional_rest_path(path) {
            Some((root_path, new_path)) => {
                let ghost i = last_rest_marker(path@, path@.len() - 3)->Some_0;
                let ghost r0 = router_routes(self.tables@[num as int]);
                let idx = self.values.len();
                self.values.push(Route::Value(value));
                let res = insert_table(&mut self.tables[num], root_path.as_str(), idx);
                if let Err(e) = res {
                    return Err(insert_error_kind(e));
                }
                proof {
                    assert(router_routes(self.tables@[num as int]) == r0.insert(
                        path@.subrange(0, i),
                        idx,
                    ));
                }
                let root_len = root_path.as_str().unicode_len();
                let has_slash = if root_len > 1 {
                    root_path.as_str().get_char(root_len - 1) == '/'
                } else {
                    false
                };
                proof {
                    lemma_last_rest_marker_found(path@, path@.len() - 3);
                    assert(root_path@.len() == i);
                    assert(root_len == i);
                    if root_len > 1 {
                        assert(root_path@[root_len - 1] == path@[i - 1]);
                    }
                    assert(has_slash == (i > 1 && path@[i - 1] == '/'));
                }
                if has_slash {
                    let alias = self.values.len();
                    self.values.push(Route::OtherRoute(root_path.clone()));
                    let trimmed = root_path.as_str().substring_char(0, root_len - 1);
                    proof {
                        assert(trimmed@ =~= path@.subrange(0, i).drop_last());
                    }
                    let res = insert_table(&mut self.tables[num], trimmed, alias);
                    if let Err(e) = res {
                        return Err(insert_error_kind(e));
                    }
                    proof {
                        assert(router_routes(self.tables@[num as int]) == r0.insert(
                            path@.subrange(0, i),
                            idx,
                        ).insert(path@.subrange(0, i).drop_last(), alias));
                    }
                }
                let alias = self.values.len();
                self.values.push(Route::OtherRoute(root_path));
                let res = insert_table(&mut self.tables[num], new_path.as_str(), alias);
                match res {
                    Ok(()) => Ok(()),
                    Err(e) => Err(insert_error_kind(e)),
                }
            },
            None => {
                let idx = self.values.len();
                self.values.push(Route::Value(value));
                let res = insert_table(&mut self.tables[num], path, idx);
                match res {
                    Ok(()) => Ok(()),
                    Err(e) => Err(insert_error_kind(e)),
                }
            },
        }
    }

    /// Resolves a request's method and path to the registered value and
    /// the matched parameter values.
    pub fn at(&self, method: Option<&Method>, path: &str) -> (r: Option<
        (&T, Vec<(String, String)>),
    >)
        requires
            self.tables@.len() == 10,
        ensures
            ({
                let num = spec_method_num(match method {
                    Some(m) => Some(*m),
                    None => None,
                });
                let resolved = spec_at(
                    self.values@,
                    router_routes(self.tables@[num]),
                    path@,
                );
                match r {
                    Some(found) => resolved is Some && *found.0 == resolved->Some_0.0
                        && found.1@.map_values(|p: (String, String)| (p.0@, p.1@))
                        == resolved->Some_0.1,
                    None => resolved is None,
                }
            }),
    {
        let num = method_to_num(method);
        let found = at_table(&self.tables[num], path);
        match found {
            None => None,
            Some((idx, params)) => {
                if idx >= self.values.len() {
                    return None;
                }
                match &self.values[idx] {
                    Route::Value(v) => Some((v, params)),
                    Route::OtherRoute(p) => {
                        let second = at_table(&self.tables[num], p.as_str());
                        match second {
                            None => None,
                            Some((idx2, _)) => {
                                if idx2 >= self.values.len() {
                                    return None;
                                }
                                match &self.values[idx2] {
                                    Route::Value(v) => Some((v, params)),
                                    Route::OtherRoute(_) => None,
                                }
                            },
                        }
                    },
                }
            },
        }
    }
}

} // verus!
