//! The route table: the four endpoints the API declares, in declaration
//! order. Dispatching requests against it is the host's work; the table
//! itself is configuration the library states.

use vstd::prelude::*;

verus! {

/// An HTTP method a route can declare.
#[derive(Clone, Copy, Debug, PartialEq, Eq, Structural)]
pub enum Method {
    Get,
    Post,
}

/// One declared endpoint: a method and a path pattern.
pub struct Route {
    pub method: Method,
    pub path: &'static str,
}

/// The declared endpoints, in order: the service descriptor, the user
/// listing, lookup by path identifier, and creation.
pub fn route_table() -> (r: Vec<Route>)
    ensures
        r@.len() == 4,
        r@[0].method is Get && r@[0].path@ == "/"@,
        r@[1].method is Get && r@[1].path@ == "/users"@,
        r@[2].method is Get && r@[2].path@ == "/users/{id}"@,
        r@[3].method is Post && r@[3].path@ == "/users"@,
{
    let mut routes: Vec<Route> = Vec::new();
    routes.push(Route { method: Method::Get, path: "/" });
    routes.push(Route { method: Method::Get, path: "/users" });
    routes.push(Route { method: Method::Get, path: "/users/{id}" });
    routes.push(Route { method: Method::Post, path: "/users" });
    routes
}

} // verus!
