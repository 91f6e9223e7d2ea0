//! Logging a user in: the verdict on a login form and its rendering as a
//! redirect.

use crate::authenticator::Authenticator;
use crate::form::parse_form;
use crate::form::parse_form_spec;
use crate::response::Flash;
use crate::response::Outcome;
use crate::response::Redirect;
use crate::response::Status;
use vstd::prelude::*;

verus! {

/// The verdict on a login form: the application accepted or rejected the
/// submitted credentials.  Either way the application's user value is kept,
/// so a handler can still say who tried to log in.
#[derive(Debug)]
pub enum Login<A> {
    /// The credentials were valid; the user is logged in.
    Success(A),
    /// The credentials were not valid.
    Failure(A),
}

/// Why a login form produced no verdict at all.
#[derive(Debug)]
pub enum FormError<E> {
    /// The form body was malformed.
    Malformed,
    /// The application rejected the form with the given error.
    Parse(E),
}

impl<A> Login<A> {
    /// The application value inside, whatever the verdict.
    pub open spec fn spec_inner(self) -> A {
        match self {
            Login::Success(a) => a,
            Login::Failure(a) => a,
        }
    }

    /// Unwraps the application value, whatever the verdict.
    pub fn into_inner(self) -> (a: A)
        ensures
            a == self.spec_inner(),
    {
        match self {
            Login::Success(a) => a,
            Login::Failure(a) => a,
        }
    }

    /// Borrows the application value, whatever the verdict.
    pub fn inner(&self) -> (a: &A)
        ensures
            *a == self.spec_inner(),
    {
        match self {
            Login::Success(a) => a,
            Login::Failure(a) => a,
        }
    }

    /// Renders a success: a redirect to `url`.
    fn success(&self, url: String) -> (r: Redirect)
        ensures
            r.uri@ == url@,
    {
        Redirect::to(url)
    }

    /// Renders a failure: a redirect to `url`.
    fn failure(&self, url: String) -> (r: Redirect)
        ensures
            r.uri@ == url@,
    {
        Redirect::to(url)
    }

    /// Renders a failure as a redirect to `url` carrying the one-shot error
    /// message `msg`.
    fn flash_failure(&self, url: String, msg: String) -> (f: Flash)
        ensures
            f.redirect.uri@ == url@,
            f.message@ == msg@,
    {
        Flash::error(Redirect::to(url), msg)
    }

    /// Picks the redirect that renders this value: `success_url` where the
    /// login succeeded, `failure_url` where it did not.
    pub fn redirect(&self, success_url: String, failure_url: String) -> (r: Redirect)
        ensures
            r.uri@ == if self is Success {
                success_url@
            } else {
                failure_url@
            },
    {
        match self {
            Login::Success(_) => self.success(success_url),
            Login::Failure(_) => self.failure(failure_url),
        }
    }

    /// As [`Self::redirect`], but a failure carries the one-shot error
    /// message `failure_msg` to be shown once on the next request.
    pub fn flash_redirect(&self, success_url: String, failure_url: String, failure_msg: String) -> (r:
        Result<Redirect, Flash>)
        ensures
            self is Success ==> (r matches Ok(rd) && rd.uri@ == success_url@),
            self is Failure ==> (r matches Err(f) && f.redirect.uri@ == failure_url@ && f.message@
                == failure_msg@),
    {
        match self {
            Login::Success(_) => Ok(self.success(success_url)),
            Login::Failure(_) => Err(self.flash_failure(failure_url, failure_msg)),
        }
    }
}

impl<A: Authenticator> Login<A> {
    /// Turns the application's answer on a well-formed login form into the
    /// outcome of the request: a verdict passes through, and a rejection
    /// answers the request with `401 Unauthorized`.
    pub fn from_result(result: Result<Login<A>, A::Error>) -> (o: Outcome<
        Login<A>,
        FormError<A::Error>,
    >)
        ensures
            match result {
                Ok(l) => (o matches Outcome::Success(v) && v == l),
                Err(e) => (o matches Outcome::Failure(st, fe) && st == Status::Unauthorized && (
                fe matches FormError::Parse(pe) && pe == e)),
            },
    {
        match result {
            Ok(v) => Outcome::Success(v),
            Err(e) => Outcome::Failure(Status::Unauthorized, FormError::Parse(e)),
        }
    }

    /// Judges the raw body of a login request.  A malformed body answers the
    /// request with `400 Bad Request` and touches no credentials; a
    /// well-formed one is handed to the application, whose rejection answers
    /// with `401 Unauthorized` and whose verdict passes through.  A login
    /// form never falls through to another handler.
    pub fn from_login_form(form: &[u8], strict: bool) -> (o: Outcome<
        Login<A>,
        FormError<A::Error>,
    >)
        ensures
            match o {
                Outcome::Success(_) => parse_form_spec(form@) is Some,
                Outcome::Failure(st, fe) => match fe {
                    FormError::Malformed => st == Status::BadRequest && parse_form_spec(form@)
                        is None,
                    FormError::Parse(_) => st == Status::Unauthorized && parse_form_spec(form@)
                        is Some,
                },
                Outcome::Forward => false,
            },
    {
        match parse_form(form) {
            None => Outcome::Failure(Status::BadRequest, FormError::Malformed),
            Some(items) => Self::from_result(A::authenticate(&items, strict)),
        }
    }
}

/// How many bytes of the request body a login form reads: the configured
/// form limit where there is one, and 4096 otherwise.
pub fn form_read_limit(configured: Option<u64>) -> (r: u64)
    ensures
        r == match configured {
            Some(l) => l,
            None => 4096u64,
        },
{
    match configured {
        Some(l) => l,
        None => 4096,
    }
}

/// The buffer capacity to reserve before reading a form body: the read
/// limit, capped at 4096.
pub fn form_buffer_capacity(limit: u64) -> (r: usize)
    ensures
        r == if limit < 4096 {
            limit as usize
        } else {
            4096usize
        },
{
    if limit < 4096 {
        limit as usize
    } else {
        4096
    }
}

} // verus!
