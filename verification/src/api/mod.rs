//! What the endpoints decide, apart from how requests arrive and answers
//! leave.

pub mod dashboard;
pub mod error;
pub mod login_page;
pub mod middleware;
pub mod workouts;
