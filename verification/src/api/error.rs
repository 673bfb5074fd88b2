//! How a request fails.

use vstd::prelude::*;

verus! {

/// The status of a request that was malformed.
pub const BAD_REQUEST: u16 = 400;

/// The status of a request that carried no valid token.
pub const UNAUTHORIZED: u16 = 401;

/// The status of a request for something that the user does not have.
pub const NOT_FOUND: u16 = 404;

/// The status of a request that the store could not serve.
pub const INTERNAL_SERVER_ERROR: u16 = 500;

/// A failed request: the status to answer with and the words to send.
#[derive(Clone, Debug, PartialEq, Eq)]
pub struct ApiError {
    pub status: u16,
    pub message: String,
}

impl ApiError {
    /// Whether the error holds exactly these values.
    pub open spec fn is(self, status: int, message: Seq<char>) -> bool {
        self.status == status && self.message@ == message
    }
}

} // verus!
