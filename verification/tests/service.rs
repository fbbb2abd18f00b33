use hello_users::handlers::{create_user, root};
use hello_users::model::{CreateUser, User, FIRST_USER_ID};
use hello_users::response::{Body, ContentType, Response, StatusCode};
use hello_users::router::{Handler, Router};
use hello_users::service::{create_app, serve};

fn payload(username: &str) -> Option<CreateUser> {
    Some(CreateUser { username: username.to_string() })
}

#[test]
fn should_return_hello_world() {
    let res = create_app().handle("GET", "/", None);
    let bytes = match res.body {
        Body::Text(text) => text.into_bytes(),
        other => panic!("no text in the body: {:?}", other),
    };
    assert_eq!(bytes, "Hello, World!".as_bytes());
}

#[test]
fn should_user_date() {
    let body = r#"{"username": "jun-uen0"}"#;
    let sent: serde_json::Value = serde_json::from_str(body).expect("Failed to deserialize");
    let username = sent.get("username").and_then(|name| name.as_str()).map(str::to_string);
    let res = create_app().handle(
        "POST",
        "/users",
        username.map(|username| CreateUser { username }),
    );
    let user = match res.body {
        Body::Json(user) => user,
        other => panic!("no user in the body: {:?}", other),
    };
    assert_eq!(
        user,
        User {
            id: 1,
            username: "jun-uen0".to_string()
        }
    );
}

#[test]
fn get_root_is_greeted() {
    let res = serve("GET", "/", None);
    assert_eq!(res.status, StatusCode::Success);
    assert_eq!(res.status.as_u16(), 200);
    assert_eq!(res.body, Body::Text("Hello, World!".to_string()));
    assert_eq!(res.body.content_type(), Some(ContentType::TextPlain));
}

#[test]
fn get_root_ignores_the_payload() {
    let with = serve("GET", "/", payload("someone"));
    let without = serve("GET", "/", None);
    assert_eq!(with, without);
    assert_eq!(with.body, Body::Text("Hello, World!".to_string()));
}

#[test]
fn post_users_creates_the_user() {
    let res = serve("POST", "/users", payload("jun-uen0"));
    assert_eq!(res.status, StatusCode::Created);
    assert_eq!(res.status.as_u16(), 201);
    assert_eq!(
        res.body,
        Body::Json(User { id: 1, username: "jun-uen0".to_string() })
    );
    assert_eq!(res.body.content_type(), Some(ContentType::ApplicationJson));
}

#[test]
fn post_users_accepts_any_username() {
    for name in ["", " ", "a", "jun-uen0", "Ünï çødé ✓", "with \"quotes\" and \\", "line\nbreak"] {
        let res = serve("POST", "/users", payload(name));
        assert_eq!(res.status, StatusCode::Created);
        assert_eq!(res.body, Body::Json(User { id: 1, username: name.to_string() }));
    }
}

#[test]
fn post_users_with_a_bad_body_is_refused() {
    let res = serve("POST", "/users", None);
    assert_eq!(res.status, StatusCode::BadRequest);
    assert_eq!(res.status.as_u16(), 400);
    assert_eq!(res.body, Body::Empty);
    assert_eq!(res.body.content_type(), None);
}

#[test]
fn other_requests_are_not_found() {
    let requests = [
        ("HEAD", "/"),
        ("POST", "/"),
        ("PUT", "/"),
        ("GET", "/users"),
        ("DELETE", "/users"),
        ("PATCH", "/users"),
        ("get", "/"),
        ("post", "/users"),
        ("GET", ""),
        ("GET", "//"),
        ("GET", "/index.html"),
        ("POST", "/users/"),
        ("POST", "/users/1"),
        ("POST", "/Users"),
        ("", ""),
        ("GET ", "/"),
    ];
    for (method, path) in requests {
        for body in [None, payload("someone")] {
            let res = serve(method, path, body);
            assert_eq!(res.status, StatusCode::NotFound, "{} {}", method, path);
            assert_eq!(res.status.as_u16(), 404);
            assert_eq!(res.body, Body::Empty);
        }
    }
}

#[test]
fn repeated_requests_get_the_same_user() {
    let first = serve("POST", "/users", payload("jun-uen0"));
    for _ in 0..10 {
        let again = serve("POST", "/users", payload("jun-uen0"));
        assert_eq!(again, first);
    }
    for name in ["a", "b", "c"] {
        match serve("POST", "/users", payload(name)).body {
            Body::Json(user) => assert_eq!(user.id, 1),
            other => panic!("no user in the body: {:?}", other),
        }
    }
}

#[test]
fn a_kept_table_answers_as_a_fresh_one() {
    let app = create_app();
    for _ in 0..3 {
        assert_eq!(app.handle("GET", "/", None), serve("GET", "/", None));
        assert_eq!(
            app.handle("POST", "/users", payload("x")),
            serve("POST", "/users", payload("x"))
        );
        assert_eq!(app.handle("GET", "/nowhere", None), serve("GET", "/nowhere", None));
    }
}

#[test]
fn root_returns_the_greeting() {
    assert_eq!(root(), "Hello, World!");
    assert_eq!(root().chars().count(), 13);
}

#[test]
fn create_user_copies_the_username() {
    let (status, user) = create_user(CreateUser { username: "jun-uen0".to_string() });
    assert_eq!(status, StatusCode::Created);
    assert_eq!(user, User { id: 1, username: "jun-uen0".to_string() });
    let (status, user) = create_user(CreateUser { username: String::new() });
    assert_eq!(status, StatusCode::Created);
    assert_eq!(user, User { id: 1, username: String::new() });
    assert_eq!(FIRST_USER_ID, 1);
}

#[test]
fn status_codes_have_their_numbers() {
    assert_eq!(StatusCode::Success.as_u16(), 200);
    assert_eq!(StatusCode::Created.as_u16(), 201);
    assert_eq!(StatusCode::BadRequest.as_u16(), 400);
    assert_eq!(StatusCode::NotFound.as_u16(), 404);
}

#[test]
fn content_types_have_their_names() {
    assert_eq!(ContentType::TextPlain.as_str(), "text/plain");
    assert_eq!(ContentType::ApplicationJson.as_str(), "application/json");
    assert_eq!(Body::Empty.content_type(), None);
    assert_eq!(Body::Text(String::new()).content_type(), Some(ContentType::TextPlain));
    assert_eq!(
        Body::Json(User { id: 1, username: String::new() }).content_type(),
        Some(ContentType::ApplicationJson)
    );
}

#[test]
fn responses_are_built_as_asked() {
    assert_eq!(
        Response::empty(StatusCode::NotFound),
        Response { status: StatusCode::NotFound, body: Body::Empty }
    );
    assert_eq!(
        Response::text("hi"),
        Response { status: StatusCode::Success, body: Body::Text("hi".to_string()) }
    );
    assert_eq!(
        Response::json(StatusCode::Created, User { id: 7, username: "u".to_string() }),
        Response {
            status: StatusCode::Created,
            body: Body::Json(User { id: 7, username: "u".to_string() }),
        }
    );
}

#[test]
fn the_app_has_two_routes() {
    let app = create_app();
    assert_eq!(app.resolve("GET", "/"), Some(Handler::Root));
    assert_eq!(app.resolve("POST", "/users"), Some(Handler::CreateUser));
    assert_eq!(app.resolve("POST", "/"), None);
    assert_eq!(app.resolve("GET", "/users"), None);
    assert_eq!(app.resolve("HEAD", "/"), None);
    assert_eq!(
        app,
        Router::new()
            .route("GET", "/", Handler::Root)
            .route("POST", "/users", Handler::CreateUser)
    );
}

#[test]
fn an_empty_table_finds_nothing() {
    let router = Router::new();
    assert_eq!(router.resolve("GET", "/"), None);
    assert_eq!(router.handle("GET", "/", None).status, StatusCode::NotFound);
    assert_eq!(router.handle("POST", "/users", payload("x")).status, StatusCode::NotFound);
}

#[test]
fn the_first_matching_route_wins() {
    let router = Router::new()
        .route("GET", "/a", Handler::CreateUser)
        .route("GET", "/b", Handler::Root)
        .route("GET", "/a", Handler::Root);
    assert_eq!(router.resolve("GET", "/a"), Some(Handler::CreateUser));
    assert_eq!(router.resolve("GET", "/b"), Some(Handler::Root));
    assert_eq!(router.resolve("GET", "/c"), None);
    assert_eq!(router.handle("GET", "/a", None).status, StatusCode::BadRequest);
    assert_eq!(
        router.handle("GET", "/a", payload("n")).body,
        Body::Json(User { id: 1, username: "n".to_string() })
    );
    assert_eq!(router.handle("GET", "/b", payload("n")).body, Body::Text("Hello, World!".to_string()));
}
