//! Registration, login and password change.
//!
//! The answers do not tell more than they must: a wrong name and a wrong
//! password are both `Invalid credentials`, and a failure of the store is an
//! `Internal server error` whatever its cause.

use crate::api::login_page::{ForgotPasswordRequest, LoginRequest, RegisterRequest};
use crate::db::user::{
    has_username, password_check, verified, with_credential, NewUser, UserDB, UserError,
    UsersView,
};
use vstd::prelude::*;
use vstd::string::StringExecFns;

verus! {

/// The answer to a request about a user's credentials.
#[derive(Clone, Debug, PartialEq, Eq)]
pub struct AuthResponse {
    pub username: String,
    pub success: bool,
    pub message: String,
}

impl AuthResponse {
    /// Whether the answer holds exactly these values.
    pub open spec fn is(self, username: String, success: bool, message: Seq<char>) -> bool {
        &&& self.username == username
        &&& self.success == success
        &&& self.message@ == message
    }
}

/// What a login answers for a check of the credentials that came to
/// `outcome`. A check that failed is told in general words only.
pub open spec fn login_answer_text(outcome: Result<bool, UserError>) -> (bool, Seq<char>) {
    match outcome {
        Ok(true) => (true, "Login successful"@),
        Ok(false) => (false, "Invalid credentials"@),
        Err(_) => (false, "Internal server error"@),
    }
}

/// What a registration answers that came to `outcome`.
pub open spec fn register_answer_text(outcome: Result<bool, UserError>) -> (bool, Seq<char>) {
    match outcome {
        Ok(true) => (true, "User registered"@),
        Ok(false) => (false, "Username already exists"@),
        Err(_) => (false, "Couldn't register user"@),
    }
}

/// What a password change answers that came to `outcome`.
pub open spec fn forgot_password_answer_text(outcome: Result<(), UserError>) -> (bool, Seq<char>) {
    match outcome {
        Ok(_) => (true, "Password updated"@),
        Err(_) => (false, "Couldn't update password"@),
    }
}

/// What a login answers, given the users as they are.
pub open spec fn login_outcome(
    users: UsersView,
    request: LoginRequest,
    answer: AuthResponse,
) -> bool {
    let outcome = verified(users, request.username@, request.password@);
    answer.is(request.username, login_answer_text(outcome).0, login_answer_text(outcome).1)
}

/// What a registration answers and does to the users.
///
/// Passwords that differ are refused before anything else is looked at. A
/// taken name is refused. A new user is stored with the name, full name and
/// address of the request, under the next id, with a credential that the
/// password of the request goes with.
pub open spec fn register_outcome(
    before: UsersView,
    after: UsersView,
    request: RegisterRequest,
    answer: AuthResponse,
) -> bool {
    if request.password@ != request.confirmpassword@ {
        after == before && answer.is(request.username, false, "Passwords do not match"@)
    } else if !before.open {
        after == before && answer.is(request.username, false, "Couldn't register user"@)
    } else if has_username(before.users, request.username@) {
        after == before && answer.is(request.username, false, "Username already exists"@)
    } else if before.next_user_id == i32::MAX {
        after == before && answer.is(request.username, false, "Couldn't register user"@)
    } else if answer.success {
        &&& answer.is(request.username, true, "User registered"@)
        &&& after.users.len() == before.users.len() + 1
        &&& after.users.last().id == before.next_user_id
        &&& after.users.last().username == request.username
        &&& after.users.last().fullname == request.fullname
        &&& after.users.last().email == request.email
        &&& password_check(request.password@, after.users.last().password@) == Some(true)
        &&& after == (UsersView {
            users: before.users.push(after.users.last()),
            next_user_id: before.next_user_id + 1,
            ..before
        })
    } else {
        after == before && answer.is(request.username, false, "Couldn't register user"@)
    }
}

/// What a password change answers and does to the users.
///
/// Passwords that differ are refused before anything else is looked at. A
/// changed credential is one that the password of the request goes with.
pub open spec fn forgot_password_outcome(
    before: UsersView,
    after: UsersView,
    request: ForgotPasswordRequest,
    answer: AuthResponse,
) -> bool {
    if request.password@ != request.confirmpassword@ {
        after == before && answer.is(request.username, false, "Passwords do not match"@)
    } else if !before.open || !has_username(before.users, request.username@) {
        after == before && answer.is(request.username, false, "Couldn't update password"@)
    } else if answer.success {
        &&& answer.is(request.username, true, "Password updated"@)
        &&& exists|hashed: String|
            password_check(request.password@, hashed@) == Some(true) && after == (UsersView {
                users: #[trigger] with_credential(before.users, request.username@, hashed),
                ..before
            })
    } else {
        after == before && answer.is(request.username, false, "Couldn't update password"@)
    }
}

/// Registration, login and password change.
pub struct AuthService {}

impl AuthService {
    /// The service.
    pub fn new() -> (r: AuthService) {
        AuthService {  }
    }

    /// The answer to a request whose two passwords differ.
    pub fn mismatch_answer(username: String) -> (r: AuthResponse)
        ensures
            r.is(username, false, "Passwords do not match"@),
    {
        AuthResponse {
            username,
            success: false,
            message: String::from_str("Passwords do not match"),
        }
    }

    /// The answer to a login whose check of the credentials came to
    /// `outcome`.
    pub fn login_answer(username: String, outcome: Result<bool, UserError>) -> (r: AuthResponse)
        ensures
            r.is(username, login_answer_text(outcome).0, login_answer_text(outcome).1),
    {
        match outcome {
            Ok(true) => AuthResponse {
                username,
                success: true,
                message: String::from_str("Login successful"),
            },
            Ok(false) => AuthResponse {
                username,
                success: false,
                message: String::from_str("Invalid credentials"),
            },
            Err(_) => AuthResponse {
                username,
                success: false,
                message: String::from_str("Internal server error"),
            },
        }
    }

    /// The answer to a registration that came to `outcome`.
    pub fn register_answer(username: String, outcome: Result<bool, UserError>) -> (r: AuthResponse)
        ensures
            r.is(username, register_answer_text(outcome).0, register_answer_text(outcome).1),
    {
        match outcome {
            Ok(true) => AuthResponse {
                username,
                success: true,
                message: String::from_str("User registered"),
            },
            Ok(false) => AuthResponse {
                username,
                success: false,
                message: String::from_str("Username already exists"),
            },
            Err(_) => AuthResponse {
                username,
                success: false,
                message: String::from_str("Couldn't register user"),
            },
        }
    }

    /// The answer to a password change that came to `outcome`.
    pub fn forgot_password_answer(username: String, outcome: Result<(), UserError>) -> (r:
        AuthResponse)
        ensures
            r.is(
                username,
                forgot_password_answer_text(outcome).0,
                forgot_password_answer_text(outcome).1,
            ),
    {
        match outcome {
            Ok(_) => AuthResponse {
                username,
                success: true,
                message: String::from_str("Password updated"),
            },
            Err(_) => AuthResponse {
                username,
                success: false,
                message: String::from_str("Couldn't update password"),
            },
        }
    }

    /// The user to register for a request, or the answer to a request whose
    /// two passwords differ.
    pub fn checked_registration(request: RegisterRequest) -> (r: Result<NewUser, AuthResponse>)
        ensures
            r is Ok <==> request.password@ == request.confirmpassword@,
            r matches Ok(user) ==> user == (NewUser {
                username: request.username,
                fullname: request.fullname,
                email: request.email,
                password: request.password,
            }),
            r matches Err(answer) ==> answer.is(request.username, false, "Passwords do not match"@),
    {
        if request.password != request.confirmpassword {
            return Err(AuthService::mismatch_answer(request.username));
        }
        Ok(
            NewUser {
                username: request.username,
                fullname: request.fullname,
                email: request.email,
                password: request.password,
            },
        )
    }

    /// The name and the new password of a request, or the answer to a
    /// request whose two passwords differ.
    pub fn checked_password_change(request: ForgotPasswordRequest) -> (r: Result<
        (String, String),
        AuthResponse,
    >)
        ensures
            r is Ok <==> request.password@ == request.confirmpassword@,
            r matches Ok(change) ==> change.0 == request.username && change.1 == request.password,
            r matches Err(answer) ==> answer.is(request.username, false, "Passwords do not match"@),
    {
        if request.password != request.confirmpassword {
            return Err(AuthService::mismatch_answer(request.username));
        }
        Ok((request.username, request.password))
    }

    /// What the check of the credentials of a request comes to.
    pub fn login_check(&self, users: &UserDB, request: &LoginRequest) -> (r: Result<
        bool,
        UserError,
    >)
        ensures
            r == verified(users@, request.username@, request.password@),
    {
        users.verify_password(request.username.clone(), request.password.clone())
    }

    /// Checks the credentials of a request.
    pub fn login(&self, users: &UserDB, request: LoginRequest) -> (r: AuthResponse)
        ensures
            login_outcome(users@, request, r),
    {
        let outcome = self.login_check(users, &request);
        AuthService::login_answer(request.username, outcome)
    }

    /// Registers the user of a request.
    pub fn register(&self, users: &mut UserDB, request: RegisterRequest) -> (r: AuthResponse)
        requires
            old(users)@.wf(),
        ensures
            final(users)@.wf(),
            register_outcome(old(users)@, final(users)@, request, r),
    {
        match AuthService::checked_registration(request) {
            Ok(user) => {
                let username = user.username.clone();
                AuthService::register_answer(username, users.add_user(user))
            },
            Err(answer) => answer,
        }
    }

    /// Sets the new password of a request.
    pub fn forgot_password(&self, users: &mut UserDB, forgot_password: ForgotPasswordRequest) -> (r:
        AuthResponse)
        requires
            old(users)@.wf(),
        ensures
            final(users)@.wf(),
            forgot_password_outcome(old(users)@, final(users)@, forgot_password, r),
    {
        match AuthService::checked_password_change(forgot_password) {
            Ok((username, password)) => {
                let name = username.clone();
                AuthService::forgot_password_answer(username, users.update_password(name, password))
            },
            Err(answer) => answer,
        }
    }
}

} // verus!
