//! The error a request handler answers with.

use vstd::prelude::*;
use vstd::string::*;

verus! {

/// The HTTP status every [`AppError`] is answered with.
pub const INTERNAL_SERVER_ERROR: u16 = 500;

/// Something went wrong while a request was handled. `inner` says what.
#[derive(Debug, Clone)]
pub struct AppError {
    pub inner: String,
}

impl AppError {
    /// An error that reads `message`.
    pub fn new(message: String) -> (error: Self)
        ensures
            error.inner@ == message@,
    {
        AppError { inner: message }
    }

    /// What went wrong, as it is shown.
    pub fn to_string(&self) -> (message: String)
        ensures
            message@ == self.inner@,
    {
        self.inner.clone()
    }

    /// The status the error is answered with.
    pub fn status(&self) -> (status: u16)
        ensures
            status == INTERNAL_SERVER_ERROR,
    {
        INTERNAL_SERVER_ERROR
    }

    /// The body of the answer: a fixed opening, then what went wrong.
    pub open spec fn body(&self) -> Seq<char> {
        "Something went wrong: "@ + self.inner@
    }

    /// The body of the answer.
    pub fn response_body(&self) -> (body: String)
        ensures
            body@ == self.body(),
    {
        let mut body = String::from_str("Something went wrong: ");
        body.append(self.inner.as_str());
        body
    }
}

} // verus!
