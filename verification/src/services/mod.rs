//! The services that the request handlers call: the dashboard aggregations
//! and the write path.

pub mod answers;
pub mod auth_service;
pub mod get_service;
pub mod jwt_service;
pub mod levels;
pub mod performance;
pub mod post_service;
pub mod put_service;
pub mod volume;
