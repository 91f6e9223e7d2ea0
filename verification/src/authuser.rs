//! The logged-in user derived from a session cookie.

use crate::response::Outcome;
use vstd::prelude::*;

verus! {

/// Builds the application's user value from the string stored in the session
/// cookie.
pub trait FromString: Sized {
    /// Builds `Self` from the cookie's value.
    fn from_string(s: String) -> Self;
}

impl FromString for String {
    fn from_string(s: String) -> String {
        s
    }
}

/// A logged-in user, derived from the value of the session cookie.
pub struct AuthUser<T> {
    /// The user value built from the cookie.
    pub user: T,
}

impl<T: FromString> AuthUser<T> {
    /// Derives a user from the session cookie's value, if one was provided:
    /// a request without the cookie is not an error, it falls through to the
    /// next handler.
    pub fn from_cookie(cookie: Option<String>) -> (o: Outcome<AuthUser<T>, ()>)
        ensures
            !(o is Failure),
            (o is Success) <==> (cookie is Some),
            (o is Forward) <==> (cookie is None),
    {
        match cookie {
            Some(value) => Outcome::Success(AuthUser { user: T::from_string(value) }),
            None => Outcome::Forward,
        }
    }
}

impl<T> AuthUser<T> {
    /// Unwraps the user value.
    pub fn into_inner(self) -> (t: T)
        ensures
            t == self.user,
    {
        self.user
    }
}

} // verus!
