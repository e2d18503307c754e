//! The service's route table and its cross-origin policy.

use crate::response::Reply;
use crate::response::Status;
use crate::response::plain;
use crate::response::Body;
use vstd::prelude::*;

verus! {

/// The HTTP methods that the service answers.
#[derive(Debug, Clone, Copy, PartialEq, Eq, Structural)]
pub enum Method {
    Get,
    Post,
    Delete,
}

/// What a route leads to.
#[derive(Debug, Clone, Copy, PartialEq, Eq, Structural)]
pub enum Operation {
    Greeting,
    ListEvents,
    CreateEvent,
    DeleteEvent,
    ListTeamsForEvent,
    CreateTeam,
}

/// One line of the route table. A segment of `path` in braces stands for an
/// identity taken from the request's path.
#[derive(Debug, PartialEq, Eq)]
pub struct Route {
    pub method: Method,
    pub path: &'static str,
    pub operation: Operation,
}

/// What a `Route` holds.
pub struct RouteView {
    pub method: Method,
    pub path: Seq<char>,
    pub operation: Operation,
}

impl View for Route {
    type V = RouteView;

    open spec fn view(&self) -> RouteView {
        RouteView { method: self.method, path: self.path@, operation: self.operation }
    }
}

/// The route table. The teams of an event are listed under two paths.
pub open spec fn route_table() -> Seq<RouteView> {
    seq![
        RouteView { method: Method::Get, path: "/"@, operation: Operation::Greeting },
        RouteView { method: Method::Get, path: "/events"@, operation: Operation::ListEvents },
        RouteView { method: Method::Post, path: "/create-event"@, operation: Operation::CreateEvent },
        RouteView {
            method: Method::Delete,
            path: "/delete-event/{event_id}"@,
            operation: Operation::DeleteEvent,
        },
        RouteView {
            method: Method::Get,
            path: "/events/{event_id}/teams"@,
            operation: Operation::ListTeamsForEvent,
        },
        RouteView { method: Method::Post, path: "/teams"@, operation: Operation::CreateTeam },
        RouteView {
            method: Method::Get,
            path: "/teams/{event_id}"@,
            operation: Operation::ListTeamsForEvent,
        },
    ]
}

/// The methods that the cross-origin policy allows.
pub open spec fn allowed() -> Seq<Method> {
    seq![Method::Post, Method::Get, Method::Delete]
}

/// The route table, in the order in which the routes are registered.
pub fn routes() -> (table: Vec<Route>)
    ensures
        table@.map_values(|route: Route| route@) == route_table(),
{
    let mut table: Vec<Route> = Vec::new();
    table.push(Route { method: Method::Get, path: "/", operation: Operation::Greeting });
    table.push(Route { method: Method::Get, path: "/events", operation: Operation::ListEvents });
    table.push(
        Route { method: Method::Post, path: "/create-event", operation: Operation::CreateEvent },
    );
    table.push(
        Route {
            method: Method::Delete,
            path: "/delete-event/{event_id}",
            operation: Operation::DeleteEvent,
        },
    );
    table.push(
        Route {
            method: Method::Get,
            path: "/events/{event_id}/teams",
            operation: Operation::ListTeamsForEvent,
        },
    );
    table.push(Route { method: Method::Post, path: "/teams", operation: Operation::CreateTeam });
    table.push(
        Route {
            method: Method::Get,
            path: "/teams/{event_id}",
            operation: Operation::ListTeamsForEvent,
        },
    );
    assert(table@.map_values(|route: Route| route@) =~= route_table());
    table
}

/// The methods that the cross-origin policy allows, from the one configured
/// origin and with any request headers.
pub fn allowed_methods() -> (methods: Vec<Method>)
    ensures
        methods@ == allowed(),
{
    let mut methods: Vec<Method> = Vec::new();
    methods.push(Method::Post);
    methods.push(Method::Get);
    methods.push(Method::Delete);
    assert(methods@ =~= allowed());
    methods
}

/// The greeting under `/`, which shows that the service is up.
pub fn greeting() -> (reply: Reply)
    ensures
        reply@ == plain(Status::Success, "Hello, World!"@),
{
    Reply { status: Status::Success, body: Body::Text(String::from_str("Hello, World!")), log: None }
}

/// Every method of the route table is one that the cross-origin policy
/// allows.
pub proof fn lemma_routes_use_allowed_methods(i: int)
    requires
        0 <= i < route_table().len(),
    ensures
        allowed().contains(route_table()[i].method),
{
    assert(allowed()[0] == Method::Post);
    assert(allowed()[1] == Method::Get);
    assert(allowed()[2] == Method::Delete);
}

/// No two lines of the route table have both the method and the path in
/// common, so each request is answered by at most one route.
pub proof fn lemma_routes_are_distinct(i: int, j: int)
    requires
        0 <= i < j < route_table().len(),
    ensures
        route_table()[i].method != route_table()[j].method || route_table()[i].path
            != route_table()[j].path,
{
    reveal_strlit("/");
    reveal_strlit("/events");
    reveal_strlit("/create-event");
    reveal_strlit("/delete-event/{event_id}");
    reveal_strlit("/events/{event_id}/teams");
    reveal_strlit("/teams");
    reveal_strlit("/teams/{event_id}");
    if route_table()[i].method == route_table()[j].method {
        assert(route_table()[i].path.len() != route_table()[j].path.len());
    }
}

} // verus!
