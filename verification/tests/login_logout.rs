use rocket_auth::login::FormError;
use rocket_auth::Authenticator;
use rocket_auth::Credentials;
use rocket_auth::FormItem;
use rocket_auth::Login;
use rocket_auth::Logout;
use rocket_auth::Outcome;
use rocket_auth::Status;

struct TestUser {
    name: Vec<u8>,
}

impl Authenticator for TestUser {
    type Error = String;

    fn authenticate(items: &Vec<FormItem>, _strict: bool) -> Result<Login<Self>, String> {
        let creds = Credentials::from_items(items).map_err(|e| e.message())?;
        let user = TestUser { name: creds.username };
        if creds.password == b"secret".to_vec() {
            Ok(Login::Success(user))
        } else {
            Ok(Login::Failure(user))
        }
    }

    fn logout(session: Option<String>) -> Result<Logout<Self>, String> {
        match session {
            Some(token) if token == "boom" => Err("session store unreachable".to_string()),
            Some(token) => Ok(Logout::Success(TestUser { name: token.into_bytes() })),
            None => Ok(Logout::Failure),
        }
    }

    fn error_message(error: &String) -> String {
        error.clone()
    }
}

#[test]
fn login_success_outcome() {
    let outcome = Login::<TestUser>::from_login_form(b"username=bob&password=secret", true);
    match outcome {
        Outcome::Success(Login::Success(user)) => assert_eq!(user.name, b"bob".to_vec()),
        _ => panic!("valid credentials should log the user in"),
    }
}

#[test]
fn login_failure_outcome() {
    let outcome = Login::<TestUser>::from_login_form(b"username=bob&password=wrong", true);
    match outcome {
        Outcome::Success(Login::Failure(user)) => assert_eq!(user.name, b"bob".to_vec()),
        _ => panic!("bad credentials should keep the user out"),
    }
}

#[test]
fn login_malformed_outcome() {
    let outcome = Login::<TestUser>::from_login_form(b"a=b=c", true);
    match outcome {
        Outcome::Failure(status, FormError::Malformed) => {
            assert_eq!(status, Status::BadRequest);
        }
        _ => panic!("a malformed body should answer with 400"),
    }
}

#[test]
fn login_missing_field_outcome() {
    let outcome = Login::<TestUser>::from_login_form(b"username=bob", true);
    match outcome {
        Outcome::Failure(status, FormError::Parse(message)) => {
            assert_eq!(status, Status::Unauthorized);
            assert_eq!(message, "missing username or password");
        }
        _ => panic!("a form without a password should answer with 401"),
    }
}

#[test]
fn login_into_inner_either_verdict() {
    let success = Login::Success(TestUser { name: b"a".to_vec() });
    let failure = Login::Failure(TestUser { name: b"b".to_vec() });
    assert_eq!(success.into_inner().name, b"a".to_vec());
    assert_eq!(failure.into_inner().name, b"b".to_vec());
}

#[test]
fn login_inner_borrows() {
    let success = Login::Success(TestUser { name: b"a".to_vec() });
    assert_eq!(success.inner().name, b"a".to_vec());
}

#[test]
fn login_redirect_decision() {
    let success = Login::Success(TestUser { name: b"a".to_vec() });
    let failure = Login::Failure(TestUser { name: b"a".to_vec() });
    let r = success.redirect("/home".to_string(), "/login".to_string());
    assert_eq!(r.uri, "/home");
    let r = failure.redirect("/home".to_string(), "/login".to_string());
    assert_eq!(r.uri, "/login");
}

#[test]
fn login_flash_redirect_decision() {
    let success = Login::Success(TestUser { name: b"a".to_vec() });
    let failure = Login::Failure(TestUser { name: b"a".to_vec() });
    match success.flash_redirect("/home".to_string(), "/login".to_string(), "no".to_string()) {
        Ok(r) => assert_eq!(r.uri, "/home"),
        Err(_) => panic!("a successful login should redirect without a flash"),
    }
    match failure.flash_redirect("/home".to_string(), "/login".to_string(), "no".to_string()) {
        Ok(_) => panic!("a failed login should carry a flash message"),
        Err(flash) => {
            assert_eq!(flash.redirect.uri, "/login");
            assert_eq!(flash.message, "no");
        }
    }
}

#[test]
fn cookie_key_default() {
    assert_eq!(<TestUser as Authenticator>::get_cookie_key(), "sid");
}

#[test]
fn status_codes() {
    assert_eq!(Status::BadRequest.code(), 400);
    assert_eq!(Status::Unauthorized.code(), 401);
    assert_eq!(Status::InternalServerError.code(), 500);
}

#[test]
fn form_read_limit_values() {
    assert_eq!(rocket_auth::login::form_read_limit(None), 4096);
    assert_eq!(rocket_auth::login::form_read_limit(Some(128)), 128);
}

#[test]
fn form_buffer_capacity_capped() {
    assert_eq!(rocket_auth::login::form_buffer_capacity(128), 128);
    assert_eq!(rocket_auth::login::form_buffer_capacity(1 << 20), 4096);
}

#[test]
fn logout_success_outcome() {
    let outcome = Logout::<TestUser>::from_logout(Some("alice".to_string()));
    match outcome {
        Outcome::Success(Logout::Success(user)) => assert_eq!(user.name, b"alice".to_vec()),
        _ => panic!("an existing session should be logged out"),
    }
}

#[test]
fn logout_no_session_outcome() {
    let outcome = Logout::<TestUser>::from_logout(None);
    assert!(matches!(outcome, Outcome::Success(Logout::Failure)));
}

#[test]
fn logout_error_outcome() {
    let outcome = Logout::<TestUser>::from_logout(Some("boom".to_string()));
    match outcome {
        Outcome::Failure(status, error) => {
            assert_eq!(status, Status::InternalServerError);
            assert_eq!(
                error.message(),
                "Something went wrong when logging out: session store unreachable"
            );
        }
        _ => panic!("a failing session store should answer with 500"),
    }
}

#[test]
fn logout_redirect_decision() {
    let success = Logout::Success(TestUser { name: b"a".to_vec() });
    let failure = Logout::<TestUser>::Failure;
    let r = success.redirect("/".to_string(), "/login".to_string());
    assert_eq!(r.uri, "/");
    let r = failure.redirect("/".to_string(), "/login".to_string());
    assert_eq!(r.uri, "/login");
}

#[test]
fn logout_flash_redirect_decision() {
    let failure = Logout::<TestUser>::Failure;
    match failure.flash_redirect("/".to_string(), "/login".to_string(), "bye".to_string()) {
        Ok(_) => panic!("a failed logout should carry a flash message"),
        Err(flash) => {
            assert_eq!(flash.redirect.uri, "/login");
            assert_eq!(flash.message, "bye");
        }
    }
}
