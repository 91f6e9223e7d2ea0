//! Pluggable username/password authentication and session-cookie management
//! for a web application.
//!
//! The application supplies an [`Authenticator`]: a capability that validates
//! credentials carried by a login form and names the session cookie.  This
//! crate owns the surrounding workflow: parsing the
//! `application/x-www-form-urlencoded` body of a login request, extracting
//! credentials from it, turning the authenticator's verdict into an HTTP
//! outcome ([`Login`], [`Logout`]), and deciding which redirect (optionally
//! with a one-shot flash message) answers the request.  Reading the request
//! and writing cookies or responses is left to the embedding web layer, which
//! hands this crate plain values.

pub mod authenticator;
pub mod authuser;
pub mod credentials;
pub mod form;
pub mod login;
pub mod logout;
pub mod response;

pub use authenticator::Authenticator;
pub use authuser::AuthUser;
pub use authuser::FromString;
pub use credentials::Credentials;
pub use form::FormItem;
pub use login::Login;
pub use logout::Logout;
pub use logout::LogoutError;
pub use response::Flash;
pub use response::Outcome;
pub use response::Redirect;
pub use response::Status;
