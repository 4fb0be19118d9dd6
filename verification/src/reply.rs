//! What a handler answers to the client.

use crate::todo::{todo_views, Todo, TodoView};
use vstd::prelude::*;

verus! {

/// The answer to one request.
#[derive(Debug, PartialEq, Eq)]
pub enum Reply {
    /// Success, with the items as a JSON array.
    Json(Vec<Todo>),
    /// A redirection to another location.
    Redirect { status: u16, location: String },
    /// Plain text under the given status.
    Text { status: u16, body: String },
}

/// A reply as a mathematical value.
pub enum ReplyView {
    Json(Seq<TodoView>),
    Redirect { status: u16, location: Seq<char> },
    Text { status: u16, body: Seq<char> },
}

impl View for Reply {
    type V = ReplyView;

    open spec fn view(&self) -> ReplyView {
        match self {
            Reply::Json(todos) => ReplyView::Json(todo_views(todos@)),
            Reply::Redirect { status, location } => ReplyView::Redirect {
                status: *status,
                location: location@,
            },
            Reply::Text { status, body } => ReplyView::Text { status: *status, body: body@ },
        }
    }
}

/// Text that can stand in a header: printable ASCII, the space included.
pub open spec fn is_header_text(s: Seq<char>) -> bool {
    forall|i: int| 0 <= i < s.len() ==> ' ' <= #[trigger] s[i] <= '~'
}

/// Whether `status` tells the client that its request was at fault.
pub open spec fn is_client_error(status: u16) -> bool {
    400 <= status < 500
}

/// Whether `status` tells the client that the server failed.
pub open spec fn is_server_error(status: u16) -> bool {
    500 <= status < 600
}

/// `axum::response::Redirect::to`, turned into a response and read back: the
/// status is 303 See Other and the `Location` header carries `uri` unchanged.
/// `Redirect::to` panics on text that no header can hold, so only printable
/// ASCII is admitted.
#[verifier::external_body]
fn see_other_parts(uri: &str) -> (parts: (u16, String))
    requires
        is_header_text(uri@),
    ensures
        parts.0 == 303,
        parts.1@ == uri@,
{
    let response = axum::response::IntoResponse::into_response(axum::response::Redirect::to(uri));
    let location = response.headers()[axum::http::header::LOCATION].to_str().unwrap_or_default();
    (response.status().as_u16(), location.to_owned())
}

/// `axum::http::StatusCode::INTERNAL_SERVER_ERROR` as a number: 500.
#[verifier::external_body]
fn internal_server_error() -> (status: u16)
    ensures
        status == 500,
{
    axum::http::StatusCode::INTERNAL_SERVER_ERROR.as_u16()
}

/// `axum::http::StatusCode::UNPROCESSABLE_ENTITY` as a number: 422.
#[verifier::external_body]
fn unprocessable_entity() -> (status: u16)
    ensures
        status == 422,
{
    axum::http::StatusCode::UNPROCESSABLE_ENTITY.as_u16()
}

/// `axum::http::StatusCode::BAD_REQUEST` as a number: 400.
#[verifier::external_body]
fn bad_request() -> (status: u16)
    ensures
        status == 400,
{
    axum::http::StatusCode::BAD_REQUEST.as_u16()
}

impl Reply {
    /// A 303 See Other redirection to `location`.
    pub fn see_other(location: &str) -> (reply: Reply)
        requires
            is_header_text(location@),
        ensures
            reply@ == (ReplyView::Redirect { status: 303, location: location@ }),
    {
        let parts = see_other_parts(location);
        Reply::Redirect { status: parts.0, location: parts.1 }
    }

    /// A 500 Internal Server Error with `body` as plain text.
    pub fn server_error(body: String) -> (reply: Reply)
        ensures
            reply@ == (ReplyView::Text { status: 500, body: body@ }),
    {
        Reply::Text { status: internal_server_error(), body }
    }

    /// A 422 Unprocessable Entity with `body` as plain text.
    pub fn unprocessable(body: String) -> (reply: Reply)
        ensures
            reply@ == (ReplyView::Text { status: 422, body: body@ }),
    {
        Reply::Text { status: unprocessable_entity(), body }
    }

    /// A 400 Bad Request with `body` as plain text.
    pub fn bad_request(body: String) -> (reply: Reply)
        ensures
            reply@ == (ReplyView::Text { status: 400, body: body@ }),
    {
        Reply::Text { status: bad_request(), body }
    }
}

} // verus!
