//! What the service answers: a status and a body.

use vstd::prelude::*;

verus! {

/// The statuses the service answers with.
#[derive(Clone, Copy, Debug, PartialEq, Eq, Structural)]
pub enum StatusCode {
    Success,
    BadRequest,
    NotFound,
    RequestTimeout,
    InternalServerError,
}

impl StatusCode {
    /// The number of the status on the wire.
    pub open spec fn code(self) -> int {
        match self {
            StatusCode::Success => 200,
            StatusCode::BadRequest => 400,
            StatusCode::NotFound => 404,
            StatusCode::RequestTimeout => 408,
            StatusCode::InternalServerError => 500,
        }
    }

    /// Whether the status reports that the request was served.
    pub open spec fn is_success(self) -> bool {
        200 <= self.code() < 300
    }

    /// Whether the status blames the request, not the service.
    pub open spec fn is_client_error(self) -> bool {
        400 <= self.code() < 500
    }

    pub fn as_u16(self) -> (code: u16)
        ensures
            code == self.code(),
    {
        match self {
            StatusCode::Success => 200,
            StatusCode::BadRequest => 400,
            StatusCode::NotFound => 404,
            StatusCode::RequestTimeout => 408,
            StatusCode::InternalServerError => 500,
        }
    }
}

/// A response body. The first three are JSON documents, the last is plain
/// text.
#[derive(Clone, Debug, PartialEq, Eq)]
pub enum Body {
    /// `{"message": <text>}`
    Message(String),
    /// `{"errors": {"message": [<text>, ...]}}`
    Errors(Vec<String>),
    /// `{"error": <text>}`
    Error(String),
    /// The text as it stands.
    Text(String),
}

/// A body as mathematical text.
pub enum BodyView {
    Message(Seq<char>),
    Errors(Seq<Seq<char>>),
    Error(Seq<char>),
    Text(Seq<char>),
}

impl View for Body {
    type V = BodyView;

    open spec fn view(&self) -> BodyView {
        match self {
            Body::Message(text) => BodyView::Message(text@),
            Body::Errors(reasons) => BodyView::Errors(reasons.deep_view()),
            Body::Error(text) => BodyView::Error(text@),
            Body::Text(text) => BodyView::Text(text@),
        }
    }
}

/// A complete response.
#[derive(Clone, Debug, PartialEq, Eq)]
pub struct Response {
    pub status: StatusCode,
    pub body: Body,
}

/// A response as mathematical text.
pub struct ResponseView {
    pub status: StatusCode,
    pub body: BodyView,
}

impl View for Response {
    type V = ResponseView;

    open spec fn view(&self) -> ResponseView {
        ResponseView { status: self.status, body: self.body@ }
    }
}

/// The text every successful JSON answer carries.
pub open spec fn ok_text() -> Seq<char> {
    "Ok"@
}

/// 200 with `{"message": "Ok"}`.
pub open spec fn ok_response() -> ResponseView {
    ResponseView { status: StatusCode::Success, body: BodyView::Message(ok_text()) }
}

} // verus!
