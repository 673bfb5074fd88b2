//! The write path.
//!
//! New rows, changes and deletions go to the same tables that the dashboard
//! reads: the logger is the workout store under the name by which the write
//! services know it.

use crate::db::workouts::WorkoutDB;
use vstd::prelude::*;

verus! {

/// The store, as the write path sees it.
pub type LoggerDB = WorkoutDB;

} // verus!
