//! The one error type of the handlers, and how it is shown to the client.

use crate::reply::{Reply, ReplyView};
use vstd::prelude::*;
use vstd::std_specs::convert::FromSpecImpl;
use vstd::string::*;

verus! {

/// A failure reported by the store, with its message.
#[derive(Debug, PartialEq, Eq)]
pub struct StoreError {
    pub message: String,
}

impl View for StoreError {
    type V = Seq<char>;

    open spec fn view(&self) -> Seq<char> {
        self.message@
    }
}

/// Any failure of a handler. It ends the request and is shown to the client
/// with its message.
#[derive(Debug, PartialEq, Eq)]
pub struct AppError {
    pub message: String,
}

impl View for AppError {
    type V = Seq<char>;

    open spec fn view(&self) -> Seq<char> {
        self.message@
    }
}

/// The body shown for a failure with the given message.
pub open spec fn failure_body(message: Seq<char>) -> Seq<char> {
    "Something went wrong: "@ + message
}

impl From<StoreError> for AppError {
    fn from(err: StoreError) -> (error: AppError) {
        AppError { message: err.message }
    }
}

impl FromSpecImpl<StoreError> for AppError {
    open spec fn obeys_from_spec() -> bool {
        true
    }

    open spec fn from_spec(err: StoreError) -> AppError {
        AppError { message: err.message }
    }
}

impl AppError {
    /// The reply for this failure: a server error whose body holds the message.
    pub fn into_response(self) -> (reply: Reply)
        ensures
            reply@ == (ReplyView::Text { status: 500, body: failure_body(self@) }),
    {
        let body = String::from_str("Something went wrong: ").concat(self.message.as_str());
        Reply::server_error(body)
    }
}

} // verus!
