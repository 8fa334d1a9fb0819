//! What a request is answered with.

use vstd::prelude::*;

verus! {

/// Status of a page that was served.
pub const OK: u16 = 200;

/// Status that sends the browser on to another page with a `GET`.
pub const SEE_OTHER: u16 = 303;

/// Status of an answer to a request that the server could not carry out.
pub const INTERNAL_SERVER_ERROR: u16 = 500;

/// The only text a client is shown when the store or a template failed.
pub const SOMETHING_WENT_WRONG: &'static str = "Something went wrong...";

/// An answer to a request.
#[derive(Clone, Debug, PartialEq, Eq)]
pub enum Response {
    /// A rendered page, served with status `OK`.
    Html(String),
    /// No page: the browser is sent to the given path with status `SEE_OTHER`.
    Redirect(String),
    /// The request failed on the server's side. The text is all the client
    /// learns of it, and the status is `INTERNAL_SERVER_ERROR`.
    Failure(String),
}

impl Response {
    /// The status that goes with each kind of answer.
    pub open spec fn spec_status(self) -> u16 {
        match self {
            Response::Html(_) => OK,
            Response::Redirect(_) => SEE_OTHER,
            Response::Failure(_) => INTERNAL_SERVER_ERROR,
        }
    }

    /// The HTTP status to answer with.
    pub fn status(&self) -> (code: u16)
        ensures
            code == self.spec_status(),
    {
        match self {
            Response::Html(_) => OK,
            Response::Redirect(_) => SEE_OTHER,
            Response::Failure(_) => INTERNAL_SERVER_ERROR,
        }
    }

    /// The answer that tells a client no more than that something failed.
    pub open spec fn is_internal_error(self) -> bool {
        self matches Response::Failure(text) && text@ == SOMETHING_WENT_WRONG@
    }

    /// Answers a request that failed on the server, without saying why.
    pub fn internal_error() -> (response: Response)
        ensures
            response.is_internal_error(),
            response.spec_status() == INTERNAL_SERVER_ERROR,
    {
        Response::Failure(String::from_str(SOMETHING_WENT_WRONG))
    }
}

} // verus!
