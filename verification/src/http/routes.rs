//! The route table: which method and path leads to which handler.

use vstd::prelude::*;
use vstd::string::StringExecFns;

verus! {

/// The request methods the table tells apart.
#[derive(Clone, Copy, Debug, PartialEq, Eq, Structural)]
pub enum Method {
    Get,
    Post,
    /// Any method other than the two above.
    Other,
}

/// The handlers a route can lead to.
#[derive(Clone, Copy, Debug, PartialEq, Eq, Structural)]
pub enum Handler {
    /// Liveness at the root.
    Health,
    /// Liveness at the root of the API.
    Home,
    /// The validation route.
    Validation,
    /// The scrape endpoint.
    Metrics,
}

/// One line of the table.
#[derive(Clone, Debug, PartialEq, Eq)]
pub struct Route {
    pub method: Method,
    pub path: String,
    pub handler: Handler,
}

/// One line of the table as mathematical text.
pub struct RouteView {
    pub method: Method,
    pub path: Seq<char>,
    pub handler: Handler,
}

impl View for Route {
    type V = RouteView;

    open spec fn view(&self) -> RouteView {
        RouteView { method: self.method, path: self.path@, handler: self.handler }
    }
}

/// A table as mathematical text, line by line.
pub open spec fn table(routes: Seq<Route>) -> Seq<RouteView> {
    Seq::new(routes.len(), |i: int| routes[i]@)
}

/// Whether a line is the one for `method` and `path`. Paths are compared
/// character by character: a trailing slash makes another path.
pub open spec fn serves(route: RouteView, method: Method, path: Seq<char>) -> bool {
    route.method == method && route.path == path
}

/// The handler of the first line for `method` and `path`, if there is one.
pub open spec fn find_route(routes: Seq<RouteView>, method: Method, path: Seq<char>) -> Option<
    Handler,
>
    decreases routes.len(),
{
    if routes.len() == 0 {
        None
    } else if serves(routes[0], method, path) {
        Some(routes[0].handler)
    } else {
        find_route(routes.drop_first(), method, path)
    }
}

/// What [`find_route`] finds: nothing exactly when no line serves the
/// request, and otherwise the handler of a line that does and that no
/// serving line precedes.
pub proof fn lemma_find_route(routes: Seq<RouteView>, method: Method, path: Seq<char>)
    ensures
        find_route(routes, method, path) is None <==> forall|i: int|
            0 <= i < routes.len() ==> !serves(#[trigger] routes[i], method, path),
        find_route(routes, method, path) matches Some(handler) ==> exists|i: int|
            0 <= i < routes.len() && serves(#[trigger] routes[i], method, path)
                && routes[i].handler == handler && forall|j: int|
                0 <= j < i ==> !serves(#[trigger] routes[j], method, path),
    decreases routes.len(),
{
    if routes.len() == 0 {
    } else if serves(routes[0], method, path) {
        assert(serves(routes[0], method, path));
    } else {
        let rest = routes.drop_first();
        lemma_find_route(rest, method, path);
        assert forall|i: int| 0 <= i < rest.len() implies rest[i] == routes[i + 1] by {}
        if find_route(rest, method, path) is None {
            assert forall|i: int| 0 <= i < routes.len() implies !serves(
                #[trigger] routes[i],
                method,
                path,
            ) by {
                if i > 0 {
                    assert(routes[i] == rest[i - 1]);
                }
            }
        } else {
            let handler = find_route(rest, method, path)->0;
            let k = choose|i: int|
                0 <= i < rest.len() && serves(#[trigger] rest[i], method, path) && rest[i].handler
                    == handler && forall|j: int|
                    0 <= j < i ==> !serves(#[trigger] rest[j], method, path);
            assert(serves(routes[k + 1], method, path));
            assert forall|j: int| 0 <= j < k + 1 implies !serves(
                #[trigger] routes[j],
                method,
                path,
            ) by {
                if j > 0 {
                    assert(routes[j] == rest[j - 1]);
                }
            }
        }
    }
}

/// Looks `method` and `path` up in the table.
pub fn resolve(routes: &Vec<Route>, method: Method, path: &str) -> (found: Option<Handler>)
    ensures
        found == find_route(table(routes@), method, path@),
{
    let wanted = String::from_str(path);
    let mut i: usize = 0;
    assert(table(routes@).skip(0) =~= table(routes@));
    while i < routes.len()
        invariant
            i <= routes.len(),
            wanted@ == path@,
            find_route(table(routes@), method, path@) == find_route(
                table(routes@).skip(i as int),
                method,
                path@,
            ),
        decreases routes.len() - i,
    {
        let route = &routes[i];
        proof {
            let rest = table(routes@).skip(i as int);
            assert(rest[0] == routes[i as int]@);
            assert(rest.drop_first() =~= table(routes@).skip(i + 1));
        }
        if route.method == method && route.path == wanted {
            return Some(route.handler);
        }
        i += 1;
    }
    assert(table(routes@).skip(i as int).len() == 0);
    None
}

/// Puts `prefix` in front of the path of every line, as it stands: nesting
/// `/` under `/api/v1` gives `/api/v1/`.
pub fn nest(prefix: &str, routes: Vec<Route>) -> (nested: Vec<Route>)
    ensures
        nested.len() == routes.len(),
        forall|i: int|
            0 <= i < routes.len() ==> #[trigger] nested[i]@ == (RouteView {
                method: routes[i].method,
                path: prefix@ + routes[i].path@,
                handler: routes[i].handler,
            }),
{
    let mut nested: Vec<Route> = Vec::new();
    let mut i: usize = 0;
    while i < routes.len()
        invariant
            i <= routes.len(),
            nested.len() == i,
            forall|k: int|
                0 <= k < i ==> #[trigger] nested[k]@ == (RouteView {
                    method: routes[k].method,
                    path: prefix@ + routes[k].path@,
                    handler: routes[k].handler,
                }),
        decreases routes.len() - i,
    {
        let route = &routes[i];
        let path = String::from_str(prefix).concat(route.path.as_str());
        nested.push(Route { method: route.method, path, handler: route.handler });
        i += 1;
    }
    nested
}

} // verus!
