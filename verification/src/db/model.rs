//! The rows of the workout store and the values from which they are made.

use crate::calendar::{Date, DateTime};
use crate::table::Row;
use vstd::prelude::*;

verus! {

/// The user id that marks a catalog row as shared by all users.
pub const SYSTEM_USER: i32 = 0;

/// Who owns a catalog row.
#[derive(Clone, Copy, Debug, PartialEq, Eq, Structural)]
pub enum Owner {
    /// Shared: every user sees the row.
    Global,
    /// Private to the user with this id.
    User(i32),
}

impl Owner {
    /// The user id that stands for this owner: `SYSTEM_USER` for a shared row.
    pub open spec fn id(self) -> int {
        match self {
            Owner::Global => SYSTEM_USER as int,
            Owner::User(u) => u as int,
        }
    }

    /// Whether the user `viewer` sees a row of this owner: the row is the
    /// viewer's own or shared.
    pub open spec fn shows_to(self, viewer: int) -> bool {
        self.id() == viewer || self.id() == SYSTEM_USER
    }

    /// The owner that a stored user id stands for.
    pub fn from_user_id(user_id: i32) -> (r: Owner)
        ensures
            r.id() == user_id,
            r is Global <==> user_id == SYSTEM_USER,
    {
        if user_id == SYSTEM_USER {
            Owner::Global
        } else {
            Owner::User(user_id)
        }
    }

    /// The user id under which this owner is stored.
    pub fn user_id(&self) -> (r: i32)
        ensures
            r == self.id(),
    {
        match self {
            Owner::Global => SYSTEM_USER,
            Owner::User(u) => *u,
        }
    }

    /// Whether the user `viewer` sees a row of this owner.
    pub fn visible_to(&self, viewer: i32) -> (r: bool)
        ensures
            r == self.shows_to(viewer as int),
    {
        let id: i32 = self.user_id();
        id == viewer || id == SYSTEM_USER
    }
}

/// A copy of an optional string.
pub fn clone_text(text: &Option<String>) -> (r: Option<String>)
    ensures
        r == *text,
{
    match text {
        Some(s) => Some(s.clone()),
        None => None,
    }
}

/// A stored workout session: the container for the sets and cardio logs of
/// one visit.
#[derive(Clone, Debug, PartialEq, Eq)]
pub struct WorkoutSession {
    pub id: i32,
    pub user_id: i32,
    pub title: Option<String>,
    pub date: Date,
    pub start_time: DateTime,
    pub end_time: DateTime,
    pub notes: Option<String>,
}

impl Row for WorkoutSession {
    fn duplicate(&self) -> (r: WorkoutSession) {
        WorkoutSession {
            id: self.id,
            user_id: self.user_id,
            title: clone_text(&self.title),
            date: self.date,
            start_time: self.start_time,
            end_time: self.end_time,
            notes: clone_text(&self.notes),
        }
    }
}

/// A session to be stored.
#[derive(Clone, Debug, PartialEq, Eq)]
pub struct NewWorkoutSession {
    pub user_id: i32,
    pub date: Date,
    pub title: Option<String>,
    pub notes: Option<String>,
    pub start_time: DateTime,
    pub end_time: DateTime,
}

/// The fields of a session to change; an absent field keeps its value.
#[derive(Clone, Debug, PartialEq, Eq)]
pub struct UpdateWorkoutSession {
    pub title: Option<String>,
    pub date: Option<Date>,
    pub start_time: Option<DateTime>,
    pub end_time: Option<DateTime>,
    pub notes: Option<String>,
}

impl UpdateWorkoutSession {
    /// Whether no field is to change.
    pub fn is_empty(&self) -> (r: bool)
        ensures
            r == (self.title is None && self.date is None && self.start_time is None
                && self.end_time is None && self.notes is None),
    {
        self.title.is_none() && self.date.is_none() && self.start_time.is_none()
            && self.end_time.is_none() && self.notes.is_none()
    }
}

/// A stored strength set.
///
/// The weight is carried as the 64 bits of its binary floating-point value
/// and never computed with here.
#[derive(Clone, Copy, Debug, PartialEq, Eq, Structural)]
pub struct WorkoutSet {
    pub id: i32,
    pub user_id: i32,
    pub workout_session_id: Option<i32>,
    pub variation_id: i32,
    pub weight_bits: u64,
    pub reps: i32,
    pub performed_on: Date,
}

impl Row for WorkoutSet {
    fn duplicate(&self) -> (r: WorkoutSet) {
        *self
    }
}

/// A strength set to be stored.
#[derive(Clone, Copy, Debug, PartialEq, Eq, Structural)]
pub struct NewWorkoutSet {
    pub user_id: i32,
    pub workout_session_id: Option<i32>,
    pub variation_id: i32,
    pub weight_bits: u64,
    pub reps: i32,
    pub performed_on: Date,
}

/// The fields of a strength set to change; an absent field keeps its value.
#[derive(Clone, Copy, Debug, PartialEq, Eq, Structural)]
pub struct UpdateWorkoutSet {
    pub weight_bits: Option<u64>,
    pub reps: Option<i32>,
}

impl UpdateWorkoutSet {
    /// Whether no field is to change.
    pub fn is_empty(&self) -> (r: bool)
        ensures
            r == (self.weight_bits is None && self.reps is None),
    {
        self.weight_bits.is_none() && self.reps.is_none()
    }
}

/// A stored cardio log.
#[derive(Clone, Copy, Debug, PartialEq, Eq, Structural)]
pub struct CardioLog {
    pub id: i32,
    pub user_id: i32,
    pub workout_session_id: Option<i32>,
    pub cardio_exercise_id: i32,
    pub duration_minutes: i32,
    pub performed_on: Date,
}

impl Row for CardioLog {
    fn duplicate(&self) -> (r: CardioLog) {
        *self
    }
}

/// A cardio log to be stored.
#[derive(Clone, Copy, Debug, PartialEq, Eq, Structural)]
pub struct NewCardioLog {
    pub user_id: i32,
    pub workout_session_id: Option<i32>,
    pub cardio_exercise_id: i32,
    pub duration_minutes: i32,
    pub performed_on: Date,
}

/// The fields of a cardio log to change; an absent field keeps its value.
#[derive(Clone, Copy, Debug, PartialEq, Eq, Structural)]
pub struct UpdateCardioLog {
    pub duration_minutes: Option<i32>,
}

impl UpdateCardioLog {
    /// Whether no field is to change.
    pub fn is_empty(&self) -> (r: bool)
        ensures
            r == (self.duration_minutes is None),
    {
        self.duration_minutes.is_none()
    }
}

/// A muscle group of the exercise catalog.
#[derive(Clone, Debug, PartialEq, Eq)]
pub struct MuscleGroup {
    pub id: i32,
    pub name: String,
    pub owner: Owner,
}

impl Row for MuscleGroup {
    fn duplicate(&self) -> (r: MuscleGroup) {
        MuscleGroup { id: self.id, name: self.name.clone(), owner: self.owner }
    }
}

/// A muscle group to be stored.
#[derive(Clone, Debug, PartialEq, Eq)]
pub struct NewMuscleGroup {
    pub name: String,
    pub user_id: i32,
}

/// An exercise variation of the catalog; it belongs to one muscle group.
#[derive(Clone, Debug, PartialEq, Eq)]
pub struct Variation {
    pub id: i32,
    pub muscle_group_id: i32,
    pub name: String,
    pub owner: Owner,
}

impl Row for Variation {
    fn duplicate(&self) -> (r: Variation) {
        Variation {
            id: self.id,
            muscle_group_id: self.muscle_group_id,
            name: self.name.clone(),
            owner: self.owner,
        }
    }
}

/// A variation to be stored.
#[derive(Clone, Debug, PartialEq, Eq)]
pub struct NewVariation {
    pub muscle_group_id: i32,
    pub name: String,
    pub user_id: i32,
}

/// A cardio exercise of the catalog.
#[derive(Clone, Debug, PartialEq, Eq)]
pub struct CardioExercise {
    pub id: i32,
    pub name: String,
    pub owner: Owner,
}

impl Row for CardioExercise {
    fn duplicate(&self) -> (r: CardioExercise) {
        CardioExercise { id: self.id, name: self.name.clone(), owner: self.owner }
    }
}

/// A cardio exercise to be stored.
#[derive(Clone, Debug, PartialEq, Eq)]
pub struct NewCardioExercise {
    pub name: String,
    pub user_id: i32,
}

} // verus!
