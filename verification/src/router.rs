//! The route table, and the service that it makes with the handlers.
//!
//! A route binds a method and an exact path to a handler. A request goes to
//! the first route that has its method and its path; one that no route has
//! is answered with `NotFound`.

use vstd::prelude::*;
use crate::handlers::{create_user, created_user, greeting, root};
use crate::model::{payload_view, CreateUser, CreateUserView};
use crate::response::{BodyView, Response, ResponseView, StatusCode};
use crate::text::str_eq;

verus! {

/// The handlers that a route can name.
#[derive(Clone, Copy, Debug, PartialEq, Eq, Structural)]
pub enum Handler {
    Root,
    CreateUser,
}

/// One entry of the route table.
#[derive(Debug, PartialEq, Eq)]
pub struct Route {
    pub method: String,
    pub path: String,
    pub handler: Handler,
}

/// What a [`Route`] holds.
pub ghost struct RouteView {
    pub method: Seq<char>,
    pub path: Seq<char>,
    pub handler: Handler,
}

impl RouteView {
    /// A route is for a request with the same method and the same path,
    /// character for character.
    pub open spec fn matches(self, method: Seq<char>, path: Seq<char>) -> bool {
        self.method == method && self.path == path
    }
}

impl View for Route {
    type V = RouteView;

    open spec fn view(&self) -> RouteView {
        RouteView { method: self.method@, path: self.path@, handler: self.handler }
    }
}

/// The handler of the first route in `routes` that is for `method` and
/// `path`, if there is one.
pub open spec fn lookup(
    routes: Seq<RouteView>,
    method: Seq<char>,
    path: Seq<char>,
) -> Option<Handler>
    decreases routes.len(),
{
    if routes.len() == 0 {
        None
    } else if routes.first().matches(method, path) {
        Some(routes.first().handler)
    } else {
        lookup(routes.drop_first(), method, path)
    }
}

/// `lookup` finds the earliest route that matches, and finds none only where
/// no route matches.
pub proof fn lemma_lookup_first_match(routes: Seq<RouteView>, method: Seq<char>, path: Seq<char>)
    ensures
        match lookup(routes, method, path) {
            Some(handler) => exists|i: int|
                0 <= i < routes.len() && #[trigger] routes[i].matches(method, path)
                    && routes[i].handler == handler && forall|j: int|
                    0 <= j < i ==> !#[trigger] routes[j].matches(method, path),
            None => forall|i: int|
                0 <= i < routes.len() ==> !#[trigger] routes[i].matches(method, path),
        },
    decreases routes.len(),
{
    if routes.len() == 0 {
    } else if routes.first().matches(method, path) {
        assert(routes[0].matches(method, path));
    } else {
        let rest = routes.drop_first();
        lemma_lookup_first_match(rest, method, path);
        assert(forall|i: int| 0 <= i < rest.len() ==> rest[i] == routes[i + 1]);
        match lookup(rest, method, path) {
            Some(handler) => {
                let i = choose|i: int|
                    0 <= i < rest.len() && #[trigger] rest[i].matches(method, path)
                        && rest[i].handler == handler && forall|j: int|
                        0 <= j < i ==> !#[trigger] rest[j].matches(method, path);
                assert(routes[i + 1].matches(method, path));
                assert forall|j: int| 0 <= j < i + 1 implies
                    !#[trigger] routes[j].matches(method, path) by {
                    if j > 0 {
                        assert(!rest[j - 1].matches(method, path));
                    }
                }
            },
            None => {
                assert forall|i: int| 0 <= i < routes.len() implies
                    !#[trigger] routes[i].matches(method, path) by {
                    if i > 0 {
                        assert(!rest[i - 1].matches(method, path));
                    }
                }
            },
        }
    }
}

/// An ordered table of routes.
#[derive(Debug, PartialEq, Eq)]
pub struct Router {
    routes: Vec<Route>,
}

impl View for Router {
    type V = Seq<RouteView>;

    closed spec fn view(&self) -> Seq<RouteView> {
        self.routes@.map_values(|route: Route| route@)
    }
}

impl Router {
    /// A table without routes.
    pub fn new() -> (router: Router)
        ensures
            router@ == Seq::<RouteView>::empty(),
    {
        let router = Router { routes: Vec::new() };
        assert(router@ =~= Seq::<RouteView>::empty());
        router
    }

    /// The table with one more route, after those that it has.
    pub fn route(self, method: &str, path: &str, handler: Handler) -> (router: Router)
        ensures
            router@ == self@.push(RouteView { method: method@, path: path@, handler }),
    {
        let mut routes = self.routes;
        routes.push(Route { method: method.to_owned(), path: path.to_owned(), handler });
        let router = Router { routes };
        assert(router@ =~= self@.push(RouteView { method: method@, path: path@, handler }));
        router
    }

    /// The handler that a request with this method and this path goes to:
    /// that of the earliest route that matches, and none only where no route
    /// matches.
    pub fn resolve(&self, method: &str, path: &str) -> (found: Option<Handler>)
        ensures
            found == lookup(self@, method@, path@),
            match found {
                Some(handler) => exists|i: int|
                    0 <= i < self@.len() && #[trigger] self@[i].matches(method@, path@)
                        && self@[i].handler == handler && forall|j: int|
                        0 <= j < i ==> !#[trigger] self@[j].matches(method@, path@),
                None => forall|i: int|
                    0 <= i < self@.len() ==> !#[trigger] self@[i].matches(method@, path@),
            },
    {
        let mut i: usize = 0;
        assert(self@.skip(0) =~= self@);
        while i < self.routes.len()
            invariant
                i <= self.routes.len(),
                self@.len() == self.routes.len(),
                lookup(self@, method@, path@) == lookup(self@.skip(i as int), method@, path@),
            decreases self.routes.len() - i,
        {
            let route = &self.routes[i];
            proof {
                let rest = self@.skip(i as int);
                assert(rest.first() == route@);
                assert(rest.drop_first() =~= self@.skip(i + 1));
            }
            if str_eq(route.method.as_str(), method) && str_eq(route.path.as_str(), path) {
                proof {
                    lemma_lookup_first_match(self@, method@, path@);
                }
                return Some(route.handler);
            }
            i += 1;
        }
        proof {
            assert(self@.skip(i as int).len() == 0);
            lemma_lookup_first_match(self@, method@, path@);
        }
        None
    }

    /// The response to a request. `payload` is the deserialized body, or
    /// `None` where the body is not a JSON object with a text `username`.
    ///
    /// The payload is read only where the request goes to the user-creation
    /// handler.
    pub fn handle(
        &self,
        method: &str,
        path: &str,
        payload: Option<CreateUser>,
    ) -> (response: Response)
        ensures
            response@ == response_of(lookup(self@, method@, path@), payload_view(payload)),
    {
        match self.resolve(method, path) {
            None => Response::empty(StatusCode::NotFound),
            Some(Handler::Root) => Response::text(root()),
            Some(Handler::CreateUser) => match payload {
                Some(payload) => {
                    let (status, user) = create_user(payload);
                    Response::json(status, user)
                },
                None => Response::empty(StatusCode::BadRequest),
            },
        }
    }
}

/// The response, given the handler that the request goes to and the outcome
/// of deserializing its body.
pub open spec fn response_of(
    handler: Option<Handler>,
    payload: Option<CreateUserView>,
) -> ResponseView {
    match handler {
        None => ResponseView { status: StatusCode::NotFound, body: BodyView::Empty },
        Some(Handler::Root) => ResponseView {
            status: StatusCode::Success,
            body: BodyView::Text(greeting()),
        },
        Some(Handler::CreateUser) => match payload {
            Some(payload) => ResponseView {
                status: StatusCode::Created,
                body: BodyView::Json(created_user(payload)),
            },
            None => ResponseView { status: StatusCode::BadRequest, body: BodyView::Empty },
        },
    }
}

} // verus!
