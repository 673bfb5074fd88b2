use fittrack::api::error::{ApiError, INTERNAL_SERVER_ERROR, UNAUTHORIZED};
use fittrack::api::login_page::{
    ForgotPasswordRequest, Login, LoginRequest, LoginResponse, RegisterRequest, TokenCheck, OK,
};
use fittrack::api::middleware::AuthenticatedUser;
use fittrack::db::user::{
    check_password, credential_from, credential_outcome, new_credential, NewUser, UserDB,
    UserError,
};
use fittrack::services::auth_service::{AuthResponse, AuthService};
use fittrack::services::jwt_service::JwtService;

fn open_users() -> UserDB {
    let mut users = UserDB::new();
    users.init().unwrap();
    users
}

fn new_user(username: &str, password: &str) -> NewUser {
    NewUser {
        username: String::from(username),
        fullname: String::from("Full Name"),
        email: format!("{}@example.org", username),
        password: String::from(password),
    }
}

fn register(username: &str, password: &str, confirm: &str) -> RegisterRequest {
    RegisterRequest {
        fullname: String::from("Full Name"),
        username: String::from(username),
        email: format!("{}@example.org", username),
        password: String::from(password),
        confirmpassword: String::from(confirm),
    }
}

fn login(username: &str, password: &str) -> LoginRequest {
    LoginRequest { username: String::from(username), password: String::from(password) }
}

fn answer(username: &str, success: bool, message: &str) -> AuthResponse {
    AuthResponse { username: String::from(username), success, message: String::from(message) }
}

#[test]
fn registered_user_logs_in_with_the_password() {
    let mut users = open_users();
    let auth = AuthService::new();
    assert_eq!(
        auth.register(&mut users, register("ada", "secret-1", "secret-1")),
        answer("ada", true, "User registered")
    );
    assert_eq!(auth.login(&users, login("ada", "secret-1")), answer("ada", true, "Login successful"));
    assert_eq!(auth.login(&users, login("ada", "secret-2")), answer("ada", false, "Invalid credentials"));
    assert_eq!(auth.login(&users, login("bob", "secret-1")), answer("bob", false, "Invalid credentials"));
}

#[test]
fn registration_refuses_mismatch_and_taken_names() {
    let mut users = open_users();
    let auth = AuthService::new();
    assert_eq!(
        auth.register(&mut users, register("ada", "one", "two")),
        answer("ada", false, "Passwords do not match")
    );
    assert_eq!(users.search_username(String::from("ada")), Ok(false));
    assert_eq!(auth.register(&mut users, register("ada", "one", "one")), answer("ada", true, "User registered"));
    assert_eq!(
        auth.register(&mut users, register("ada", "other", "other")),
        answer("ada", false, "Username already exists")
    );
    assert_eq!(auth.login(&users, login("ada", "one")), answer("ada", true, "Login successful"));
    assert_eq!(auth.login(&users, login("ada", "other")), answer("ada", false, "Invalid credentials"));
    let mut closed = UserDB::new();
    assert_eq!(
        auth.register(&mut closed, register("ada", "one", "one")),
        answer("ada", false, "Couldn't register user")
    );
    assert_eq!(
        auth.login(&closed, login("ada", "one")),
        answer("ada", false, "Internal server error")
    );
}

#[test]
fn password_is_stored_as_a_hash() {
    let mut users = open_users();
    assert_eq!(users.add_user(new_user("ada", "secret-1")), Ok(true));
    assert_eq!(users.add_user(new_user("ada", "secret-1")), Ok(false));
    assert_eq!(users.add_user(new_user("bob", "secret-1")), Ok(true));
    let stored = users.get_password_by_username(String::from("ada")).unwrap().unwrap();
    let other = users.get_password_by_username(String::from("bob")).unwrap().unwrap();
    assert_ne!(stored, "secret-1");
    assert!(stored.starts_with("$argon2id$"));
    assert_ne!(stored, other);
    assert_eq!(users.get_password_by_username(String::from("eve")), Ok(None));
    assert_eq!(users.search_username(String::from("ada")), Ok(true));
    assert_eq!(users.search_username(String::from("eve")), Ok(false));
    assert_eq!(users.verify_password(String::from("ada"), String::from("secret-1")), Ok(true));
    assert_eq!(users.verify_password(String::from("ada"), String::from("secret-2")), Ok(false));
    assert_eq!(users.verify_password(String::from("eve"), String::from("secret-1")), Ok(false));
    assert_eq!(check_password("secret-1", stored.as_str()), Some(true));
    assert_eq!(check_password("secret-1 ", stored.as_str()), Some(false));
}

#[test]
fn credential_that_is_no_hash_is_an_error() {
    let mut users = open_users();
    assert_eq!(users.insert_user(new_user("ada", "secret-1"), String::from("secret-1")), Ok(true));
    assert_eq!(
        users.verify_password(String::from("ada"), String::from("secret-1")),
        Err(UserError::BadCredential)
    );
    assert_eq!(check_password("secret-1", "secret-1"), None);
    assert_eq!(check_password("secret-1", ""), None);
    assert_eq!(credential_outcome(None), Err(UserError::BadCredential));
    assert_eq!(credential_outcome(Some(true)), Ok(true));
    assert_eq!(credential_outcome(Some(false)), Ok(false));
    assert_eq!(
        AuthService::new().login(&users, login("ada", "secret-1")),
        answer("ada", false, "Internal server error")
    );
    assert_eq!(
        users.insert_user(new_user("ada", "x"), String::from("y")),
        Ok(false)
    );
}

#[test]
fn hash_of_one_store_is_accepted_in_another() {
    let mut users = open_users();
    users.add_user(new_user("ada", "password")).unwrap();
    let hash = users.get_password_by_username(String::from("ada")).unwrap().unwrap();
    let mut other = open_users();
    other.insert_user(new_user("bob", "unused"), hash).unwrap();
    assert_eq!(other.verify_password(String::from("bob"), String::from("password")), Ok(true));
    assert_eq!(other.verify_password(String::from("bob"), String::from("unused")), Ok(false));
}

#[test]
fn authentication_names_the_user() {
    let mut users = open_users();
    users.add_user(new_user("ada", "one")).unwrap();
    users.add_user(new_user("bob", "two")).unwrap();
    assert_eq!(users.authenticate(String::from("ada"), String::from("one")), Ok(Some(1)));
    assert_eq!(users.authenticate(String::from("bob"), String::from("two")), Ok(Some(2)));
    assert_eq!(users.authenticate(String::from("bob"), String::from("one")), Ok(None));
    assert_eq!(users.authenticate(String::from("eve"), String::from("one")), Ok(None));
    users.set_credential(String::from("bob"), String::from("plain")).unwrap();
    assert_eq!(
        users.authenticate(String::from("bob"), String::from("plain")),
        Err(UserError::BadCredential)
    );
    let closed = UserDB::new();
    assert_eq!(
        closed.authenticate(String::from("ada"), String::from("one")),
        Err(UserError::Unavailable)
    );
}

#[test]
fn fresh_credentials_differ_and_are_accepted() {
    let first = new_credential("secret").unwrap();
    let second = new_credential("secret").unwrap();
    assert_ne!(first, second);
    assert_eq!(check_password("secret", first.as_str()), Some(true));
    assert_eq!(check_password("secret", second.as_str()), Some(true));
    assert_eq!(check_password("Secret", first.as_str()), Some(false));
}

#[test]
fn answers_follow_the_outcome() {
    assert_eq!(AuthService::mismatch_answer(String::from("ada")), answer("ada", false, "Passwords do not match"));
    assert_eq!(AuthService::login_answer(String::from("ada"), Ok(true)), answer("ada", true, "Login successful"));
    assert_eq!(AuthService::login_answer(String::from("ada"), Ok(false)), answer("ada", false, "Invalid credentials"));
    assert_eq!(
        AuthService::login_answer(String::from("ada"), Err(UserError::Unavailable)),
        answer("ada", false, "Internal server error")
    );
    assert_eq!(AuthService::register_answer(String::from("ada"), Ok(true)), answer("ada", true, "User registered"));
    assert_eq!(
        AuthService::register_answer(String::from("ada"), Ok(false)),
        answer("ada", false, "Username already exists")
    );
    assert_eq!(
        AuthService::register_answer(String::from("ada"), Err(UserError::Hashing)),
        answer("ada", false, "Couldn't register user")
    );
    assert_eq!(
        AuthService::forgot_password_answer(String::from("ada"), Ok(())),
        answer("ada", true, "Password updated")
    );
    assert_eq!(
        AuthService::forgot_password_answer(String::from("ada"), Err(UserError::UsernameNotFound)),
        answer("ada", false, "Couldn't update password")
    );
    let (status, body) = Login::login_reply(Ok(true));
    assert_eq!((status, body.success, body.message.as_str()), (OK, true, "Login successful"));
    let (status, body) = Login::login_reply(Ok(false));
    assert_eq!((status, body.success, body.message.as_str()), (UNAUTHORIZED, false, "Invalid credentials"));
    for error in [UserError::Unavailable, UserError::BadCredential, UserError::Hashing] {
        let (status, body) = Login::login_reply(Err(error));
        assert_eq!(
            (status, body.success, body.message.as_str(), body.token.as_str()),
            (INTERNAL_SERVER_ERROR, false, "Internal server error", "")
        );
    }
}

#[test]
fn user_store_that_is_not_open_serves_nothing() {
    let mut users = UserDB::new();
    assert_eq!(users.add_user(new_user("ada", "x")), Err(UserError::Unavailable));
    assert_eq!(users.insert_user(new_user("ada", "x"), String::from("h")), Err(UserError::Unavailable));
    assert_eq!(users.search_username(String::from("ada")), Err(UserError::Unavailable));
    assert_eq!(users.get_password_by_username(String::from("ada")), Err(UserError::Unavailable));
    assert_eq!(users.verify_password(String::from("ada"), String::from("x")), Err(UserError::Unavailable));
    assert_eq!(users.update_password(String::from("ada"), String::from("x")), Err(UserError::Unavailable));
    assert_eq!(users.set_credential(String::from("ada"), String::from("x")), Err(UserError::Unavailable));
    assert_eq!(UserError::Unavailable.message(), "Pool is not initialised");
    assert_eq!(UserError::Hashing.message(), "Error hashing password");
    assert_eq!(UserError::UsernameNotFound.message(), "Username not found");
}

#[test]
fn new_password_replaces_the_old_one() {
    let mut users = open_users();
    let auth = AuthService::new();
    auth.register(&mut users, register("ada", "old", "old"));
    auth.register(&mut users, register("bob", "old", "old"));
    let request = |password: &str, confirm: &str| ForgotPasswordRequest {
        username: String::from("ada"),
        password: String::from(password),
        confirmpassword: String::from(confirm),
    };
    assert_eq!(
        auth.forgot_password(&mut users, request("new", "other")),
        answer("ada", false, "Passwords do not match")
    );
    assert_eq!(auth.login(&users, login("ada", "old")), answer("ada", true, "Login successful"));
    assert_eq!(auth.forgot_password(&mut users, request("new", "new")), answer("ada", true, "Password updated"));
    assert_eq!(auth.login(&users, login("ada", "old")), answer("ada", false, "Invalid credentials"));
    assert_eq!(auth.login(&users, login("ada", "new")), answer("ada", true, "Login successful"));
    assert_eq!(auth.login(&users, login("bob", "old")), answer("bob", true, "Login successful"));
    let unknown = ForgotPasswordRequest {
        username: String::from("eve"),
        password: String::from("new"),
        confirmpassword: String::from("new"),
    };
    assert_eq!(
        auth.forgot_password(&mut users, unknown),
        answer("eve", false, "Couldn't update password")
    );
    assert_eq!(
        users.update_password(String::from("eve"), String::from("x")),
        Err(UserError::UsernameNotFound)
    );
    assert_eq!(users.set_credential(String::from("eve"), String::from("x")), Err(UserError::UsernameNotFound));
    assert_eq!(users.set_credential(String::from("bob"), String::from("x")), Ok(()));
    assert_eq!(users.get_password_by_username(String::from("bob")), Ok(Some(String::from("x"))));
}

#[test]
fn login_handlers_answer_with_a_status() {
    let mut users = open_users();
    let auth = AuthService::new();
    assert_eq!(
        Login::register_handler(&auth, &mut users, register("ada", "pw", "pw")),
        answer("ada", true, "User registered")
    );
    let (status, body) = Login::login_handler(&auth, &users, login("ada", "pw"));
    assert_eq!(status, OK);
    assert_eq!(
        body,
        LoginResponse { success: true, message: String::from("Login successful"), token: String::new() }
    );
    let (status, body) = Login::login_handler(&auth, &users, login("ada", "wrong"));
    assert_eq!(status, UNAUTHORIZED);
    assert_eq!(
        body,
        LoginResponse { success: false, message: String::from("Invalid credentials"), token: String::new() }
    );
    let change = ForgotPasswordRequest {
        username: String::from("ada"),
        password: String::from("next"),
        confirmpassword: String::from("next"),
    };
    assert_eq!(Login::forgot_password_handler(&auth, &mut users, change), answer("ada", true, "Password updated"));
    assert_eq!(Login::login_handler(&auth, &users, login("ada", "next")).0, OK);
}

#[test]
fn token_check_decides_who_acts() {
    let valid = TokenCheck::Valid { username: String::from("ada"), user_id: 5 };
    assert_eq!(
        AuthenticatedUser::from_request(valid.clone()),
        Ok(AuthenticatedUser { id: 5, username: String::from("ada") })
    );
    assert_eq!(
        AuthenticatedUser::from_request(TokenCheck::Invalid(String::from("ExpiredSignature"))),
        Err(ApiError { status: UNAUTHORIZED, message: String::from("Invalid token") })
    );
    assert_eq!(
        AuthenticatedUser::from_request(TokenCheck::Missing),
        Err(ApiError { status: UNAUTHORIZED, message: String::from("No auth token found") })
    );
    assert_eq!(
        Login::verify_token_handler(valid),
        (
            OK,
            LoginResponse {
                success: true,
                message: String::from("Token is valid"),
                token: String::from("ada"),
            }
        )
    );
    assert_eq!(
        Login::verify_token_handler(TokenCheck::Invalid(String::from("ExpiredSignature"))),
        (
            UNAUTHORIZED,
            LoginResponse {
                success: false,
                message: String::from("Invalid or expired token: ExpiredSignature"),
                token: String::new(),
            }
        )
    );
    assert_eq!(
        Login::verify_token_handler(TokenCheck::Missing),
        (
            UNAUTHORIZED,
            LoginResponse {
                success: false,
                message: String::from("No token cookie found"),
                token: String::new(),
            }
        )
    );
}

#[test]
fn token_lives_for_one_minute() {
    let issuer = JwtService::new();
    assert_eq!(issuer.expiration_minutes(), 1);
    assert_eq!(issuer.secret(), "SECRET");
    let claims = issuer.claims_at("ada", 5, 1_700_000_000).unwrap();
    assert_eq!(claims.sub, "ada");
    assert_eq!(claims.id, 5);
    assert_eq!(claims.iat, 1_700_000_000);
    assert_eq!(claims.exp, 1_700_000_060);
    assert_eq!(issuer.claims_at("ada", 5, 0).unwrap().exp, 60);
    assert!(issuer.claims_at("ada", 5, -1).is_none());
    assert!(issuer.claims_at("ada", 5, i64::MAX).is_none());
    assert!(issuer.claims_at("ada", 5, i64::MAX - 60).is_some());
    assert!(issuer.claims_at("ada", 5, i64::MAX - 59).is_none());
}

#[test]
fn credential_goes_with_its_password_whatever_the_password() {
    let long = "x".repeat(300);
    for password in ["", " ", "hunter42", "p\u{e4}ssw\u{f6}rd \u{1f512}", long.as_str()] {
        let hashed = new_credential(password).unwrap();
        assert!(hashed.starts_with("$argon2id$v=19$m=19456,t=2,p=1$"));
        assert_eq!(check_password(password, hashed.as_str()), Some(true));
        let other = format!("{}x", password);
        assert_eq!(check_password(other.as_str(), hashed.as_str()), Some(false));
    }
}

#[test]
fn stored_credential_of_a_new_user_goes_with_the_password() {
    let mut users = open_users();
    assert_eq!(users.add_user(new_user("ada", "first")), Ok(true));
    let stored = users.get_password_by_username(String::from("ada")).unwrap().unwrap();
    assert_eq!(check_password("first", stored.as_str()), Some(true));
    assert_eq!(users.authenticate(String::from("ada"), String::from("first")), Ok(Some(1)));
    assert_eq!(users.update_password(String::from("ada"), String::from("second")), Ok(()));
    let renewed = users.get_password_by_username(String::from("ada")).unwrap().unwrap();
    assert_ne!(renewed, stored);
    assert_eq!(check_password("second", renewed.as_str()), Some(true));
    assert_eq!(check_password("first", renewed.as_str()), Some(false));
    assert_eq!(users.authenticate(String::from("ada"), String::from("second")), Ok(Some(1)));
}

#[test]
fn hashing_comes_to_a_credential_or_to_its_failure() {
    assert_eq!(credential_from(Ok(String::from("$argon2id$x"))), Ok(String::from("$argon2id$x")));
    assert_eq!(credential_from(Ok(String::new())), Ok(String::new()));
    assert_eq!(credential_from(Err(password_hash::Error::Password)), Err(UserError::Hashing));
    assert_eq!(credential_from(Err(password_hash::Error::Crypto)), Err(UserError::Hashing));
}

#[test]
fn failed_check_of_a_login_is_the_servers_fault() {
    let auth = AuthService::new();
    let closed = UserDB::new();
    assert_eq!(auth.login_check(&closed, &login("ada", "pw")), Err(UserError::Unavailable));
    let (status, body) = Login::login_handler(&auth, &closed, login("ada", "pw"));
    assert_eq!(status, INTERNAL_SERVER_ERROR);
    assert_eq!(
        body,
        LoginResponse {
            success: false,
            message: String::from("Internal server error"),
            token: String::new(),
        }
    );
    let mut users = open_users();
    users.insert_user(new_user("ada", "pw"), String::from("pw")).unwrap();
    assert_eq!(auth.login_check(&users, &login("ada", "pw")), Err(UserError::BadCredential));
    assert_eq!(Login::login_handler(&auth, &users, login("ada", "pw")).0, INTERNAL_SERVER_ERROR);
    assert_eq!(auth.login_check(&users, &login("bob", "pw")), Ok(false));
    assert_eq!(Login::login_handler(&auth, &users, login("bob", "pw")).0, UNAUTHORIZED);
}

#[test]
fn requests_with_two_passwords_are_checked_first() {
    assert_eq!(
        AuthService::checked_registration(register("ada", "one", "one")),
        Ok(new_user("ada", "one"))
    );
    assert_eq!(
        AuthService::checked_registration(register("ada", "one", "One")),
        Err(answer("ada", false, "Passwords do not match"))
    );
    let change = |password: &str, confirm: &str| ForgotPasswordRequest {
        username: String::from("ada"),
        password: String::from(password),
        confirmpassword: String::from(confirm),
    };
    assert_eq!(
        AuthService::checked_password_change(change("new", "new")),
        Ok((String::from("ada"), String::from("new")))
    );
    assert_eq!(
        AuthService::checked_password_change(change("new", "")),
        Err(answer("ada", false, "Passwords do not match"))
    );
}

#[test]
fn password_change_succeeds_exactly_for_a_user_that_exists() {
    let mut users = open_users();
    users.add_user(new_user("ada", "old")).unwrap();
    let before = users.get_password_by_username(String::from("ada")).unwrap().unwrap();
    assert_eq!(users.update_password(String::from("ada"), String::from("new")), Ok(()));
    assert_eq!(
        users.update_password(String::from("eve"), String::from("new")),
        Err(UserError::UsernameNotFound)
    );
    assert_eq!(users.search_username(String::from("eve")), Ok(false));
    let after = users.get_password_by_username(String::from("ada")).unwrap().unwrap();
    assert_ne!(after, before);
    assert_ne!(after, "new");
    assert_eq!(check_password("new", after.as_str()), Some(true));
    let mut closed = UserDB::new();
    assert_eq!(
        closed.update_password(String::from("ada"), String::from("new")),
        Err(UserError::Unavailable)
    );
}
