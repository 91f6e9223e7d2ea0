//! The response-side vocabulary of the library: the HTTP statuses it can
//! attach to a failed guard, the redirect and flash-message values a handler
//! turns into an HTTP response, and the three-way outcome of a guard.

use vstd::prelude::*;

verus! {

/// The HTTP status codes this library attaches to failed outcomes.
#[derive(Clone, Copy, Debug, PartialEq, Eq, Structural)]
pub enum Status {
    /// The request's form body was malformed.
    BadRequest,
    /// The credentials were not accepted.
    Unauthorized,
    /// Logging out went wrong on the server side.
    InternalServerError,
}

impl Status {
    /// The numeric code of this status.
    pub open spec fn spec_code(self) -> u16 {
        match self {
            Status::BadRequest => 400,
            Status::Unauthorized => 401,
            Status::InternalServerError => 500,
        }
    }

    /// Returns the numeric HTTP status code.
    pub fn code(&self) -> (c: u16)
        ensures
            c == self.spec_code(),
    {
        match self {
            Status::BadRequest => 400,
            Status::Unauthorized => 401,
            Status::InternalServerError => 500,
        }
    }
}

/// A redirect to the given URI, to be rendered by the web layer.
#[derive(Debug)]
pub struct Redirect {
    /// The target URI of the redirect.
    pub uri: String,
}

impl Redirect {
    /// Builds a redirect to `uri`.
    pub fn to(uri: String) -> (r: Redirect)
        ensures
            r.uri@ == uri@,
    {
        Redirect { uri }
    }
}

/// An "error" flash message: a one-shot message carried across exactly one
/// redirect and displayed once on the next request.
#[derive(Debug)]
pub struct Flash {
    /// The message to display once.
    pub message: String,
    /// The redirect that carries the message.
    pub redirect: Redirect,
}

impl Flash {
    /// Wraps `redirect` with a one-shot error `message`.
    pub fn error(redirect: Redirect, message: String) -> (f: Flash)
        ensures
            f.message@ == message@,
            f.redirect.uri@ == redirect.uri@,
    {
        Flash { message, redirect }
    }
}

/// What a request guard derived from the request: a value, a failure with an
/// HTTP status, or a fall-through to the next handler.
#[derive(Debug)]
pub enum Outcome<S, E> {
    /// The guard produced a value.
    Success(S),
    /// The guard failed; the request is answered with the given status.
    Failure(Status, E),
    /// The guard does not apply; fall through to another handler.
    Forward,
}

} // verus!
