//! What a session token says.
//!
//! A token names a user and lives for a fixed time. Signing a token and
//! checking its signature are not done here; this module decides what
//! stands in a token that is issued at a given moment.

use vstd::prelude::*;
use vstd::string::StringExecFns;

verus! {

/// Seconds in a minute.
pub const SECONDS_PER_MINUTE: i64 = 60;

/// What a token says: the name and the id of the user, and the seconds
/// since the epoch at which it was issued and at which it expires.
#[derive(Clone, Debug, PartialEq, Eq)]
pub struct Claims {
    pub sub: String,
    pub id: i32,
    pub exp: usize,
    pub iat: usize,
}

/// The issuer of session tokens.
#[derive(Clone, Debug, PartialEq, Eq)]
pub struct JwtService {
    secret: String,
    expiration_minutes: i64,
}

impl JwtService {
    /// The key with which tokens are signed.
    pub closed spec fn spec_secret(&self) -> Seq<char> {
        self.secret@
    }

    /// The minutes for which a token is good.
    pub closed spec fn spec_expiration_minutes(&self) -> int {
        self.expiration_minutes as int
    }

    /// An issuer whose tokens are good for one minute.
    pub fn new() -> (r: JwtService)
        ensures
            r.spec_secret() == "SECRET"@,
            r.spec_expiration_minutes() == 1,
    {
        JwtService { secret: String::from_str("SECRET"), expiration_minutes: 1 }
    }

    /// The key with which tokens are signed.
    pub fn secret(&self) -> (r: &str)
        ensures
            r@ == self.spec_secret(),
    {
        self.secret.as_str()
    }

    /// The minutes for which a token is good.
    pub fn expiration_minutes(&self) -> (r: i64)
        ensures
            r == self.spec_expiration_minutes(),
    {
        self.expiration_minutes
    }

    /// What stands in a token issued to the user `subject` with the id
    /// `user_id` at `now` seconds since the epoch: it expires the token's
    /// lifetime later. `None` where the moment of issue or of expiry cannot
    /// be written down.
    pub fn claims_at(&self, subject: &str, user_id: i32, now: i64) -> (r: Option<Claims>)
        ensures
            r is Some <==> 0 <= now && 0 <= now + self.spec_expiration_minutes() * SECONDS_PER_MINUTE
                <= i64::MAX && now + self.spec_expiration_minutes() * SECONDS_PER_MINUTE
                <= usize::MAX && now <= usize::MAX,
            r matches Some(claims) ==> {
                &&& claims.sub@ == subject@
                &&& claims.id == user_id
                &&& claims.iat == now
                &&& claims.exp == now + self.spec_expiration_minutes() * SECONDS_PER_MINUTE
            },
    {
        if now < 0 {
            return None;
        }
        let lifetime: i64 = match self.expiration_minutes.checked_mul(SECONDS_PER_MINUTE) {
            Some(seconds) => seconds,
            None => {
                return None;
            },
        };
        let expiry: i64 = match now.checked_add(lifetime) {
            Some(seconds) => seconds,
            None => {
                return None;
            },
        };
        if expiry < 0 || expiry as u64 > usize::MAX as u64 || now as u64 > usize::MAX as u64 {
            return None;
        }
        Some(
            Claims {
                sub: String::from_str(subject),
                id: user_id,
                exp: expiry as usize,
                iat: now as usize,
            },
        )
    }
}

} // verus!
