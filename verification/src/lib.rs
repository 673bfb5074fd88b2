//! Verified core of a fitness tracker: calendar arithmetic, the workout
//! store with per-user ownership, and the dashboard aggregations.

pub mod api;
pub mod calendar;
pub mod configuration;
pub mod db;
pub mod grouping;
pub mod services;
pub mod table;
pub mod text;
