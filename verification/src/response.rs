//! What the service answers: a status, and a body whose kind fixes the
//! content type.

use vstd::prelude::*;
use crate::model::{User, UserView};

verus! {

/// The statuses that the service answers with.
#[derive(Clone, Copy, Debug, PartialEq, Eq, Structural)]
pub enum StatusCode {
    /// 200 OK
    Success,
    /// 201 Created
    Created,
    /// 400 Bad Request
    BadRequest,
    /// 404 Not Found
    NotFound,
}

impl StatusCode {
    /// The status as the number that goes on the wire.
    pub open spec fn code(self) -> u16 {
        match self {
            StatusCode::Success => 200,
            StatusCode::Created => 201,
            StatusCode::BadRequest => 400,
            StatusCode::NotFound => 404,
        }
    }

    #[verifier::when_used_as_spec(code)]
    pub fn as_u16(self) -> (number: u16)
        ensures
            number == self.code(),
    {
        match self {
            StatusCode::Success => 200,
            StatusCode::Created => 201,
            StatusCode::BadRequest => 400,
            StatusCode::NotFound => 404,
        }
    }
}

/// The media type of a response body.
#[derive(Clone, Copy, Debug, PartialEq, Eq, Structural)]
pub enum ContentType {
    TextPlain,
    ApplicationJson,
}

impl ContentType {
    /// The media type as it is written in a header.
    pub open spec fn name(self) -> Seq<char> {
        match self {
            ContentType::TextPlain => "text/plain"@,
            ContentType::ApplicationJson => "application/json"@,
        }
    }

    pub fn as_str(self) -> (name: &'static str)
        ensures
            name@ == self.name(),
    {
        match self {
            ContentType::TextPlain => "text/plain",
            ContentType::ApplicationJson => "application/json",
        }
    }
}

/// The body of a response.
#[derive(Debug, PartialEq, Eq)]
pub enum Body {
    /// Nothing.
    Empty,
    /// Text, sent as it is.
    Text(String),
    /// A user, sent as a JSON object with the fields `id` and `username`.
    Json(User),
}

/// What a [`Body`] holds.
pub ghost enum BodyView {
    Empty,
    Text(Seq<char>),
    Json(UserView),
}

impl BodyView {
    /// The content type that goes with the body: none for an empty one.
    pub open spec fn content_type(self) -> Option<ContentType> {
        match self {
            BodyView::Empty => None,
            BodyView::Text(_) => Some(ContentType::TextPlain),
            BodyView::Json(_) => Some(ContentType::ApplicationJson),
        }
    }
}

impl View for Body {
    type V = BodyView;

    open spec fn view(&self) -> BodyView {
        match self {
            Body::Empty => BodyView::Empty,
            Body::Text(text) => BodyView::Text(text@),
            Body::Json(user) => BodyView::Json(user@),
        }
    }
}

impl Body {
    pub fn content_type(&self) -> (kind: Option<ContentType>)
        ensures
            kind == self@.content_type(),
    {
        match self {
            Body::Empty => None,
            Body::Text(_) => Some(ContentType::TextPlain),
            Body::Json(_) => Some(ContentType::ApplicationJson),
        }
    }
}

/// A response: the status and the body.
#[derive(Debug, PartialEq, Eq)]
pub struct Response {
    pub status: StatusCode,
    pub body: Body,
}

/// What a [`Response`] holds.
pub ghost struct ResponseView {
    pub status: StatusCode,
    pub body: BodyView,
}

impl View for Response {
    type V = ResponseView;

    open spec fn view(&self) -> ResponseView {
        ResponseView { status: self.status, body: self.body@ }
    }
}

impl Response {
    /// A response with a status and nothing else.
    pub fn empty(status: StatusCode) -> (response: Response)
        ensures
            response@ == (ResponseView { status, body: BodyView::Empty }),
    {
        Response { status, body: Body::Empty }
    }

    /// A successful response that carries text.
    pub fn text(text: &str) -> (response: Response)
        ensures
            response@ == (ResponseView { status: StatusCode::Success, body: BodyView::Text(text@) }),
    {
        Response { status: StatusCode::Success, body: Body::Text(text.to_owned()) }
    }

    /// A response that carries a user as JSON.
    pub fn json(status: StatusCode, user: User) -> (response: Response)
        ensures
            response@ == (ResponseView { status, body: BodyView::Json(user@) }),
    {
        Response { status, body: Body::Json(user) }
    }
}

} // verus!
