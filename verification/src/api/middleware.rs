//! The user on whose behalf a request acts.

use crate::api::error::{ApiError, UNAUTHORIZED};
use crate::api::login_page::TokenCheck;
use vstd::prelude::*;
use vstd::string::StringExecFns;

verus! {

/// The user that a verified token names. Every read and write of a request
/// is scoped to this user's id, which is taken as it stands in the token.
#[derive(Clone, Debug, PartialEq, Eq)]
pub struct AuthenticatedUser {
    pub id: i32,
    pub username: String,
}

impl AuthenticatedUser {
    /// The acting user of a request, or the refusal to answer with: a
    /// request without a token and one with a bad token are both answered
    /// with the status 401.
    pub fn from_request(check: TokenCheck) -> (r: Result<AuthenticatedUser, ApiError>)
        ensures
            match check {
                TokenCheck::Valid { username, user_id } => r matches Ok(user) && user.id == user_id
                    && user.username == username,
                TokenCheck::Invalid(_) => r is Err && r->Err_0.is(
                    UNAUTHORIZED as int,
                    "Invalid token"@,
                ),
                TokenCheck::Missing => r is Err && r->Err_0.is(
                    UNAUTHORIZED as int,
                    "No auth token found"@,
                ),
            },
    {
        match check {
            TokenCheck::Valid { username, user_id } => Ok(
                AuthenticatedUser { id: user_id, username },
            ),
            TokenCheck::Invalid(_) => Err(
                ApiError { status: UNAUTHORIZED, message: String::from_str("Invalid token") },
            ),
            TokenCheck::Missing => Err(
                ApiError { status: UNAUTHORIZED, message: String::from_str("No auth token found") },
            ),
        }
    }
}

} // verus!
