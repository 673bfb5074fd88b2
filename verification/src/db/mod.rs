//! The data layer: the rows and the store that keeps them.

pub mod logger;
pub mod model;
pub mod user;
pub mod workouts;
