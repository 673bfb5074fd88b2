//! The requests of the login endpoints and what each endpoint answers.

use crate::api::error::{INTERNAL_SERVER_ERROR, UNAUTHORIZED};
use crate::db::user::{verified, UserDB, UserError};
use crate::services::auth_service::{
    forgot_password_outcome, login_answer_text, register_outcome, AuthResponse, AuthService,
};
use vstd::prelude::*;
use vstd::string::StringExecFns;

verus! {

/// The status of an answered request.
pub const OK: u16 = 200;

/// The answer to a login or to a check of a token.
#[derive(Clone, Debug, PartialEq, Eq)]
pub struct LoginResponse {
    pub success: bool,
    pub message: String,
    pub token: String,
}

/// A request to register a user.
#[derive(Clone, Debug, PartialEq, Eq)]
pub struct RegisterRequest {
    pub fullname: String,
    pub username: String,
    pub email: String,
    pub password: String,
    pub confirmpassword: String,
}

/// A request to log in.
#[derive(Clone, Debug, PartialEq, Eq)]
pub struct LoginRequest {
    pub username: String,
    pub password: String,
}

/// A request to set a new password.
#[derive(Clone, Debug, PartialEq, Eq)]
pub struct ForgotPasswordRequest {
    pub username: String,
    pub password: String,
    pub confirmpassword: String,
}

/// What became of the token that a request carried.
#[derive(Clone, Debug, PartialEq, Eq)]
pub enum TokenCheck {
    /// The request carried no token.
    Missing,
    /// The token is forged, damaged or expired; the words say which.
    Invalid(String),
    /// The token is good and names this user.
    Valid { username: String, user_id: i32 },
}

/// The status with which a login is answered: 200 for a user who is let in,
/// 401 for one who is not, 500 where the check itself failed.
pub open spec fn login_status(outcome: Result<bool, UserError>) -> int {
    match outcome {
        Ok(true) => OK as int,
        Ok(false) => UNAUTHORIZED as int,
        Err(_) => INTERNAL_SERVER_ERROR as int,
    }
}

/// What a login answers: the status, and the body without its token.
pub open spec fn login_answer(outcome: Result<bool, UserError>) -> (int, bool, Seq<char>) {
    (login_status(outcome), login_answer_text(outcome).0, login_answer_text(outcome).1)
}

/// What a check of a token answers: the status and the body.
pub open spec fn token_answer(check: TokenCheck) -> (int, bool, Seq<char>, Seq<char>) {
    match check {
        TokenCheck::Missing => (UNAUTHORIZED as int, false, "No token cookie found"@, Seq::empty()),
        TokenCheck::Invalid(why) => (
            UNAUTHORIZED as int,
            false,
            "Invalid or expired token: "@ + why@,
            Seq::empty(),
        ),
        TokenCheck::Valid { username, user_id } => (OK as int, true, "Token is valid"@, username@),
    }
}

/// The login endpoints.
pub struct Login {}

impl Login {
    /// The endpoints.
    pub fn new() -> (r: Login) {
        Login {  }
    }

    /// Registers the user of the request.
    pub fn register_handler(
        auth_service: &AuthService,
        users: &mut UserDB,
        payload: RegisterRequest,
    ) -> (r: AuthResponse)
        requires
            old(users)@.wf(),
        ensures
            final(users)@.wf(),
            register_outcome(old(users)@, final(users)@, payload, r),
    {
        auth_service.register(users, payload)
    }

    /// What a login answers for a check of the credentials that came to
    /// `outcome`: the status 200 for a user who is let in, who is then to get
    /// a token; the status 401 for one who is not; and the status 500, in
    /// general words, where the check itself failed. The token of the answer
    /// is left empty here.
    pub fn login_reply(outcome: Result<bool, UserError>) -> (r: (u16, LoginResponse))
        ensures
            login_answer(outcome) == (r.0 as int, r.1.success, r.1.message@),
            r.1.token@.len() == 0,
    {
        let status: u16 = match outcome {
            Ok(true) => OK,
            Ok(false) => UNAUTHORIZED,
            Err(_) => INTERNAL_SERVER_ERROR,
        };
        let answer = AuthService::login_answer(String::new(), outcome);
        (
            status,
            LoginResponse { success: answer.success, message: answer.message, token: String::new() },
        )
    }

    /// Checks the credentials of the request and answers as
    /// [`Login::login_reply`] says.
    pub fn login_handler(auth_service: &AuthService, users: &UserDB, payload: LoginRequest) -> (r: (
        u16,
        LoginResponse,
    ))
        ensures
            login_answer(verified(users@, payload.username@, payload.password@)) == (
                r.0 as int,
                r.1.success,
                r.1.message@,
            ),
            r.1.token@.len() == 0,
    {
        Login::login_reply(auth_service.login_check(users, &payload))
    }

    /// Sets the new password of the request.
    pub fn forgot_password_handler(
        auth_service: &AuthService,
        users: &mut UserDB,
        payload: ForgotPasswordRequest,
    ) -> (r: AuthResponse)
        requires
            old(users)@.wf(),
        ensures
            final(users)@.wf(),
            forgot_password_outcome(old(users)@, final(users)@, payload, r),
    {
        auth_service.forgot_password(users, payload)
    }

    /// Says whether the token of a request is good. The answer carries the
    /// user's name in place of a token.
    pub fn verify_token_handler(check: TokenCheck) -> (r: (u16, LoginResponse))
        ensures
            token_answer(check) == (r.0 as int, r.1.success, r.1.message@, r.1.token@),
    {
        match check {
            TokenCheck::Missing => (
                UNAUTHORIZED,
                LoginResponse {
                    success: false,
                    message: String::from_str("No token cookie found"),
                    token: String::new(),
                },
            ),
            TokenCheck::Invalid(why) => {
                let mut message = String::from_str("Invalid or expired token: ");
                message.append(why.as_str());
                (UNAUTHORIZED, LoginResponse { success: false, message, token: String::new() })
            },
            TokenCheck::Valid { username, user_id } => (
                OK,
                LoginResponse {
                    success: true,
                    message: String::from_str("Token is valid"),
                    token: username,
                },
            ),
        }
    }
}

} // verus!
