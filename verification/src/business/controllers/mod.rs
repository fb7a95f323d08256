//! The routes of the service and the handlers behind them.

pub mod index;
pub mod nested;
pub mod v1;

use vstd::prelude::*;
use vstd::string::StringExecFns;

verus! {

/// The handler behind a route.
#[derive(Clone, Copy, Debug, PartialEq, Eq, Structural)]
pub enum Endpoint {
    /// Shows the landing page.
    Index,
    /// Echoes its input.
    V1,
    /// Validates its input and sets a cookie.
    Nested,
}

/// A path and the handler that answers for it.
#[derive(Debug)]
pub struct Route {
    pub path: String,
    pub endpoint: Endpoint,
}

impl View for Route {
    type V = (Seq<char>, Endpoint);

    open spec fn view(&self) -> (Seq<char>, Endpoint) {
        (self.path@, self.endpoint)
    }
}

/// The routes of a list, each as contracts see it.
pub open spec fn views_of(routes: Seq<Route>) -> Seq<(Seq<char>, Endpoint)> {
    routes.map_values(|route: Route| route@)
}

/// The routes of the service.
pub open spec fn service_routes() -> Seq<(Seq<char>, Endpoint)> {
    seq![("/"@, Endpoint::Index), ("/api/v1"@, Endpoint::V1), ("/nested"@, Endpoint::Nested)]
}

/// The handler of the first route with this path, if there is one.
pub open spec fn endpoint_for(routes: Seq<(Seq<char>, Endpoint)>, path: Seq<char>) -> Option<
    Endpoint,
>
    decreases routes.len(),
{
    if routes.len() == 0 {
        None
    } else if routes.first().0 == path {
        Some(routes.first().1)
    } else {
        endpoint_for(routes.drop_first(), path)
    }
}

/// A table of routes that can take up the routes of the service.
pub trait Routes: Sized {
    /// The routes of the table, in the order in which they were added.
    spec fn routes(&self) -> Seq<(Seq<char>, Endpoint)>;

    /// Adds the routes of the service behind those that the table holds.
    fn configure_routes(self) -> (r: Self)
        ensures
            r.routes() == self.routes() + service_routes(),
    ;
}

impl Routes for Vec<Route> {
    open spec fn routes(&self) -> Seq<(Seq<char>, Endpoint)> {
        views_of(self@)
    }

    fn configure_routes(self) -> (r: Self) {
        let mut table = self;
        table.push(Route { path: String::from_str("/"), endpoint: Endpoint::Index });
        table.push(Route { path: String::from_str("/api/v1"), endpoint: Endpoint::V1 });
        table.push(Route { path: String::from_str("/nested"), endpoint: Endpoint::Nested });
        assert(views_of(table@) =~= views_of(self@) + service_routes());
        table
    }
}

/// Finds the handler for a path: that of the first route with exactly this
/// path. A path that no route has is left to the fallback.
pub fn resolve(routes: &Vec<Route>, path: &str) -> (r: Option<Endpoint>)
    ensures
        r == endpoint_for(views_of(routes@), path@),
{
    let wanted = String::from_str(path);
    let ghost table = views_of(routes@);
    let mut i: usize = 0;
    assert(table.skip(0) =~= table);
    while i < routes.len()
        invariant
            i <= routes.len(),
            wanted@ == path@,
            table == views_of(routes@),
            endpoint_for(table, path@) == endpoint_for(table.skip(i as int), path@),
        decreases routes.len() - i,
    {
        proof {
            assert(table.skip(i as int).first() == routes@[i as int]@);
            assert(table.skip(i as int).drop_first() =~= table.skip(i + 1));
        }
        if routes[i].path == wanted {
            return Some(routes[i].endpoint);
        }
        i = i + 1;
    }
    None
}

} // verus!
