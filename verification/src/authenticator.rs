//! The capability an application implements to plug its own credential
//! checking and session handling into the login and logout workflow.

use crate::form::FormItem;
use crate::login::Login;
use crate::logout::Logout;
use vstd::prelude::*;

verus! {

/// Implemented by the application type that [`Login`] and [`Logout`] wrap.
///
/// The library parses the login form and drives the workflow; this trait
/// supplies what only the application knows: whether the submitted
/// credentials are valid, what happens to the server-side session on logout,
/// and under which key the session cookie is stored.
pub trait Authenticator: Sized {
    /// The application's error for a rejected login or a failed logout.
    type Error;

    /// The key under which the session cookie is stored.  The default
    /// implementation returns `sid`.
    fn get_cookie_key() -> String {
        "sid".to_owned()
    }

    /// Judges the credentials carried by the items of a login form: the
    /// verdict wraps the application's user value, and an error rejects the
    /// form itself.  `strict` says whether the form was submitted as the body
    /// of a login request; it is passed to the application unchanged.
    fn authenticate(items: &Vec<FormItem>, strict: bool) -> Result<Login<Self>, Self::Error>;

    /// Ends the session named by the given cookie value, if any, and returns
    /// the user that was logged in, or `Logout::Failure` where there was no
    /// session to end.
    fn logout(session: Option<String>) -> Result<Logout<Self>, Self::Error>;

    /// A line describing the given error.
    fn error_message(error: &Self::Error) -> String;
}

} // verus!
