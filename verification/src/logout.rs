//! Logging a user out: the result of ending a session and its rendering as a
//! redirect.

use crate::authenticator::Authenticator;
use crate::response::Flash;
use crate::response::Outcome;
use crate::response::Redirect;
use crate::response::Status;
use vstd::prelude::*;

verus! {

/// The result of ending a session: the user that was logged in, or the
/// finding that there was no session to end.
#[derive(Debug)]
pub enum Logout<A> {
    /// The session was ended; the wrapped user was logged in.
    Success(A),
    /// There was no session to end.
    Failure,
}

impl<A> Logout<A> {
    /// Renders a success: a redirect to `url`.
    fn success(&self, url: String) -> (r: Redirect)
        ensures
            r.uri@ == url@,
    {
        Redirect::to(url)
    }

    /// Renders a failure: a redirect to `url`.
    fn failure(&self, url: String) -> (r: Redirect)
        ensures
            r.uri@ == url@,
    {
        Redirect::to(url)
    }

    /// Renders a failure as a redirect to `url` carrying the one-shot error
    /// message `msg`.
    fn flash_failure(&self, url: String, msg: String) -> (f: Flash)
        ensures
            f.redirect.uri@ == url@,
            f.message@ == msg@,
    {
        Flash::error(Redirect::to(url), msg)
    }

    /// The redirect that answers this result: to `success_url` where a
    /// session was ended, to `failure_url` where there was none.
    pub fn redirect(&self, success_url: String, failure_url: String) -> (r: Redirect)
        ensures
            r.uri@ == if self is Success {
                success_url@
            } else {
                failure_url@
            },
    {
        match self {
            Logout::Success(_) => self.success(success_url),
            Logout::Failure => self.failure(failure_url),
        }
    }

    /// As [`Self::redirect`], but a failure carries the one-shot error
    /// message `failure_msg` to be shown once on the next request.
    pub fn flash_redirect(&self, success_url: String, failure_url: String, failure_msg: String) -> (r:
        Result<Redirect, Flash>)
        ensures
            self is Success ==> (r matches Ok(rd) && rd.uri@ == success_url@),
            self is Failure ==> (r matches Err(f) && f.redirect.uri@ == failure_url@ && f.message@
                == failure_msg@),
    {
        match self {
            Logout::Success(_) => Ok(self.success(success_url)),
            Logout::Failure => Err(self.flash_failure(failure_url, failure_msg)),
        }
    }
}

/// Something went wrong while logging out; the line says what.
#[derive(Debug)]
pub struct LogoutError(String);

impl LogoutError {
    /// The line describing what went wrong.
    pub closed spec fn spec_message(self) -> Seq<char> {
        self.0@
    }

    /// Wraps the line `message`.
    pub fn new(message: String) -> (e: LogoutError)
        ensures
            e.spec_message() == message@,
    {
        LogoutError(message)
    }

    /// The line describing what went wrong.
    pub fn message(&self) -> (m: &String)
        ensures
            m@ == self.spec_message(),
    {
        &self.0
    }
}

impl<A: Authenticator> Logout<A> {
    /// Turns the application's answer on a logout into the outcome of the
    /// request: a result passes through, and an error answers the request
    /// with `500 Internal Server Error`, carrying the given description.
    pub fn from_result(result: Result<Logout<A>, LogoutError>) -> (o: Outcome<
        Logout<A>,
        LogoutError,
    >)
        ensures
            match result {
                Ok(l) => (o matches Outcome::Success(v) && v == l),
                Err(e) => (o matches Outcome::Failure(st, le) && st == Status::InternalServerError
                    && le == e),
            },
    {
        match result {
            Ok(v) => Outcome::Success(v),
            Err(e) => Outcome::Failure(Status::InternalServerError, e),
        }
    }

    /// Ends the session named by the given cookie value through the
    /// application.  An application error answers the request with `500
    /// Internal Server Error` and a line that describes it; a logout never
    /// falls through to another handler.
    pub fn from_logout(session: Option<String>) -> (o: Outcome<Logout<A>, LogoutError>)
        ensures
            !(o is Forward),
            o matches Outcome::Failure(st, _) ==> st == Status::InternalServerError,
    {
        match A::logout(session) {
            Ok(v) => Self::from_result(Ok(v)),
            Err(e) => {
                let detail = A::error_message(&e);
                let prefix = "Something went wrong when logging out: ".to_owned();
                Self::from_result(Err(LogoutError::new(prefix.concat(detail.as_str()))))
            },
        }
    }
}

} // verus!
