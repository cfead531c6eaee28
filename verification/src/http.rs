//! How an internal failure is answered.

use vstd::prelude::*;
use vstd::string::*;

verus! {

/// Status of an answer to an internal failure.
pub const INTERNAL_SERVER_ERROR: u16 = 500;

/// Body of an answer to an internal failure. It says nothing of the cause.
pub const INTERNAL_ERROR_BODY: &'static str = "Manager went wrong because service inner error";

/// A failure inside a handler. The cause is kept for the log and never sent.
#[derive(Debug)]
pub struct ApiError {
    cause: String,
}

impl ApiError {
    /// The cause, as a mathematical value.
    pub closed spec fn spec_cause(&self) -> Seq<char> {
        self.cause@
    }

    /// Wraps the text of a failure.
    pub fn from(cause: &str) -> (e: ApiError)
        ensures
            e.spec_cause() == cause@,
    {
        ApiError { cause: cause.to_owned() }
    }

    /// The text of the failure, for the log.
    pub fn cause(&self) -> (r: &str)
        ensures
            r@ == self.spec_cause(),
    {
        self.cause.as_str()
    }

    /// Status and body of the answer: always the same, whatever the cause.
    pub fn into_response(self) -> (r: (u16, String))
        ensures
            r.0 == INTERNAL_SERVER_ERROR,
            r.1@ == INTERNAL_ERROR_BODY@,
    {
        (INTERNAL_SERVER_ERROR, INTERNAL_ERROR_BODY.to_owned())
    }
}

} // verus!
