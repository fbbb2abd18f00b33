//! The service: the route table with its two routes, and the answer to
//! every request.
//!
//! | method | path     | answer                                             |
//! |--------|----------|----------------------------------------------------|
//! | GET    | `/`      | 200, the greeting as text                          |
//! | POST   | `/users` | 201 and the user as JSON, or 400 on a bad body     |
//! | other  | other    | 404                                                |

use vstd::prelude::*;
use crate::handlers::{created_user, greeting};
use crate::model::{payload_view, CreateUser, CreateUserView, UserView};
use crate::response::{BodyView, ContentType, Response, ResponseView, StatusCode};
use crate::router::{lookup, response_of, Handler, RouteView, Router};

verus! {

/// Whether a request asks for the greeting: `GET /`.
pub open spec fn is_greeting_request(method: Seq<char>, path: Seq<char>) -> bool {
    method == "GET"@ && path == "/"@
}

/// Whether a request asks to create a user: `POST /users`.
pub open spec fn is_create_user_request(method: Seq<char>, path: Seq<char>) -> bool {
    method == "POST"@ && path == "/users"@
}

/// The routes of the service, in the order of their registration.
pub open spec fn app_routes() -> Seq<RouteView> {
    seq![
        RouteView { method: "GET"@, path: "/"@, handler: Handler::Root },
        RouteView { method: "POST"@, path: "/users"@, handler: Handler::CreateUser },
    ]
}

/// The handler that the service has for a method and a path.
pub open spec fn routed(method: Seq<char>, path: Seq<char>) -> Option<Handler> {
    if is_greeting_request(method, path) {
        Some(Handler::Root)
    } else if is_create_user_request(method, path) {
        Some(Handler::CreateUser)
    } else {
        None
    }
}

/// The answer of the service to a request, where `payload` is the outcome of
/// deserializing the body.
pub open spec fn service_response(
    method: Seq<char>,
    path: Seq<char>,
    payload: Option<CreateUserView>,
) -> ResponseView {
    response_of(routed(method, path), payload)
}

/// No request asks for both the greeting and a new user.
pub proof fn lemma_requests_distinct(method: Seq<char>, path: Seq<char>)
    ensures
        !(is_greeting_request(method, path) && is_create_user_request(method, path)),
{
    reveal_strlit("GET");
    reveal_strlit("POST");
    assert("GET"@.len() == 3);
    assert("POST"@.len() == 4);
}

/// Looking a request up in the routes of the service gives the handler that
/// `routed` names.
pub proof fn lemma_app_routes_lookup(method: Seq<char>, path: Seq<char>)
    ensures
        lookup(app_routes(), method, path) == routed(method, path),
{
    let routes = app_routes();
    let rest = routes.drop_first();
    lemma_requests_distinct(method, path);
    assert(routes.len() == 2);
    assert(routes.first() == routes[0]);
    assert(rest.len() == 1);
    assert(rest.first() == routes[1]);
    assert(rest.drop_first().len() == 0);
    assert(lookup(rest.drop_first(), method, path) == None::<Handler>);
    assert(lookup(rest, method, path) == if routes[1].matches(method, path) {
        Some(Handler::CreateUser)
    } else {
        None
    });
}

/// The route table of the service: `GET /` goes to the greeting,
/// `POST /users` to the creation of a user.
pub fn create_app() -> (app: Router)
    ensures
        app@ == app_routes(),
        forall|method: Seq<char>, path: Seq<char>| #[trigger]
            lookup(app@, method, path) == routed(method, path),
{
    let app = Router::new()
        .route("GET", "/", Handler::Root)
        .route("POST", "/users", Handler::CreateUser);
    assert(app@ =~= app_routes());
    assert forall|method: Seq<char>, path: Seq<char>| #[trigger]
        lookup(app@, method, path) == routed(method, path) by {
        lemma_app_routes_lookup(method, path);
    }
    app
}

/// Answers one request of the service.
///
/// `payload` is the deserialized body, or `None` where the body is not a
/// JSON object with a text `username`; it is read only for `POST /users`.
pub fn serve(method: &str, path: &str, payload: Option<CreateUser>) -> (response: Response)
    ensures
        response@ == service_response(method@, path@, payload_view(payload)),
        is_greeting_request(method@, path@) ==> {
            &&& response.status == StatusCode::Success
            &&& response.status.code() == 200
            &&& response.body@ == BodyView::Text(greeting())
            &&& response.body@.content_type() == Some(ContentType::TextPlain)
        },
        is_create_user_request(method@, path@) ==> match payload {
            Some(payload) => {
                &&& response.status == StatusCode::Created
                &&& response.status.code() == 201
                &&& response.body@ == BodyView::Json(
                    UserView { id: 1, username: payload.username@ },
                )
                &&& response.body@.content_type() == Some(ContentType::ApplicationJson)
            },
            None => {
                &&& response.status == StatusCode::BadRequest
                &&& response.status.code() == 400
                &&& response.body@ == BodyView::Empty
            },
        },
        !is_greeting_request(method@, path@) && !is_create_user_request(method@, path@) ==> {
            &&& response.status == StatusCode::NotFound
            &&& response.status.code() == 404
            &&& response.body@ == BodyView::Empty
        },
{
    proof {
        lemma_requests_distinct(method@, path@);
    }
    let app = create_app();
    app.handle(method, path, payload)
}

/// Creating a user leaves nothing behind: the answer to `POST /users` is
/// fixed by the payload alone, so the same request gets the same response
/// however often it is sent, and every user that is reported has the
/// identifier 1, whatever the user name.
pub proof fn lemma_create_user_repeatable(first: CreateUserView, second: CreateUserView)
    ensures
        first == second ==> service_response("POST"@, "/users"@, Some(first))
            == service_response("POST"@, "/users"@, Some(second)),
        service_response("POST"@, "/users"@, Some(first)) == (ResponseView {
            status: StatusCode::Created,
            body: BodyView::Json(UserView { id: 1, username: first.username }),
        }),
        service_response("POST"@, "/users"@, Some(second)) == (ResponseView {
            status: StatusCode::Created,
            body: BodyView::Json(UserView { id: 1, username: second.username }),
        }),
{
    lemma_requests_distinct("POST"@, "/users"@);
}

} // verus!
