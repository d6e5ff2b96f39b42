//! The HTTP surface of the provider: which routes it mounts.

use vstd::prelude::*;

verus! {

#[derive(Debug, Clone, Copy, PartialEq, Eq, Structural)]
pub enum Method {
    Get,
    Post,
}

/// One mounted route: its method and its path pattern, with `<name>` for a
/// path segment and `<name..>` for the query fields.
#[derive(Debug)]
pub struct Route {
    pub method: Method,
    pub path: String,
}

/// The routes that the provider mounts, in the order in which it mounts them.
pub open spec fn route_table() -> Seq<(Method, Seq<char>)> {
    seq![
        (Method::Post, "/start_authentication"@),
        (Method::Get, "/browser/<attributes>/<continuation>"@),
        (Method::Get, "/browser/<attributes>/<continuation>/<attr_url>"@),
        (Method::Post, "/session/update?<typedata..>"@),
    ]
}

fn route(method: Method, path: &str) -> (r: Route)
    ensures
        r.method == method,
        r.path@ == path@,
{
    Route { method, path: String::from_str(path) }
}

/// The routes to mount: starting an authentication, the two browser entries
/// (inline, and out of band with a callback segment), and session activity.
pub fn rocket() -> (r: Vec<Route>)
    ensures
        r@.len() == route_table().len(),
        forall|i: int|
            0 <= i < r@.len() ==> (#[trigger] r@[i]).method == route_table()[i].0 && r@[i].path@
                == route_table()[i].1,
{
    let mut table: Vec<Route> = Vec::new();
    table.push(route(Method::Post, "/start_authentication"));
    table.push(route(Method::Get, "/browser/<attributes>/<continuation>"));
    table.push(route(Method::Get, "/browser/<attributes>/<continuation>/<attr_url>"));
    table.push(route(Method::Post, "/session/update?<typedata..>"));
    table
}

} // verus!
