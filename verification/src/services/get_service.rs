//! The read side of the dashboard: what the store holds for a user, turned
//! into the three views of the dashboard.
//!
//! Each view reads the rows of the acting user and hands them to the
//! aggregation of its own module. A failure of the store is the failure of
//! the whole request: no view is ever built from a part of the rows.

use crate::calendar::Date;
use crate::db::model::{CardioExercise, MuscleGroup, Variation};
use crate::db::workouts::{
    sessions_in_month, sets_of_groups, sets_of_variation, variation_groups,
    visible_cardio_exercises, visible_muscle_groups, visible_variations, StoreError, WorkoutDB,
};
use crate::services::levels::{daily_levels, levels_view, workout_levels, WorkoutLevels};
use crate::services::performance::{is_series, performance_series, WeekBucket, WeekLabel};
use crate::services::volume::{
    group_lookup, group_summary, sets_per_muscle_group, MuscleGroupVolume,
};
use vstd::prelude::*;

verus! {

/// The read side of the dashboard.
pub struct GetService {}

impl GetService {
    /// The service.
    pub fn new() -> (r: GetService) {
        GetService {  }
    }

    /// The workout level of each day of the given month on which the user
    /// `user_id` logged time.
    ///
    /// A day's level goes by the whole minutes of its sessions, added up.
    /// Days without a session have no entry, nor have days whose minutes add
    /// up to 0. The entries come in the order in which the days first occur
    /// among the stored sessions.
    pub fn get_workout_levels(
        &self,
        workout: &WorkoutDB,
        user_id: i32,
        year: i32,
        month: i32,
    ) -> (r:
        Result<Vec<WorkoutLevels>, StoreError>)
        ensures
            !workout@.open ==> r == Err::<Vec<WorkoutLevels>, StoreError>(StoreError::Unavailable),
            workout@.open ==> (r matches Ok(levels) && levels_view(levels@) == daily_levels(
                sessions_in_month(workout@.sessions, user_id as int, year as int, month as int),
            )),
    {
        match workout.get_monthly_workout_details(user_id, year, month) {
            Ok(sessions) => Ok(workout_levels(&sessions)),
            Err(_) => Err(StoreError::Unavailable),
        }
    }

    /// The weekly performance series of the user `user_id` for the variation
    /// `variation_id` over the days from `start_date` to `end_date`.
    ///
    /// Every week of the range has its bucket, with or without sets; the
    /// buckets hold the user's sets of that variation performed in the range.
    pub fn get_performance_details(
        &self,
        workout: &WorkoutDB,
        user_id: i32,
        variation_id: i32,
        start_date: Date,
        end_date: Date,
    ) -> (r: Result<Vec<WeekBucket>, StoreError>)
        ensures
            !workout@.open ==> r is Err && r->Err_0 == StoreError::Unavailable,
            workout@.open ==> (r matches Ok(series) && is_series(
                series@,
                sets_of_variation(
                    workout@.sets,
                    user_id as int,
                    variation_id as int,
                    start_date@,
                    end_date@,
                ),
                start_date@,
                end_date@,
            )),
    {
        match workout.get_performance_details(user_id, variation_id, start_date, end_date) {
            Ok(sets) => Ok(performance_series(&sets, start_date, end_date)),
            Err(_) => Err(StoreError::Unavailable),
        }
    }

    /// The number of sets that the user `user_id` performed from
    /// `start_date` to `end_date` for each of the muscle groups
    /// `muscle_group_ids`.
    ///
    /// A muscle group without a set has no entry. A set counts for the
    /// muscle group of its variation, as far as the user sees the variation.
    pub fn get_numberof_sets_per_musclegroup(
        &self,
        workout: &WorkoutDB,
        user_id: i32,
        start_date: Date,
        end_date: Date,
        muscle_group_ids: Vec<i32>,
    ) -> (r: Result<Vec<MuscleGroupVolume>, StoreError>)
        requires
            workout@.wf(),
        ensures
            !workout@.open ==> r == Err::<Vec<MuscleGroupVolume>, StoreError>(
                StoreError::Unavailable,
            ),
            workout@.open ==> (r matches Ok(summary) && summary@ == group_summary(
                sets_of_groups(
                    workout@.sets,
                    workout@.variations,
                    user_id as int,
                    muscle_group_ids@,
                    start_date@,
                    end_date@,
                ),
                group_lookup(
                    variation_groups(workout@.variations, muscle_group_ids@, user_id as int),
                ),
            )),
    {
        let sets = match workout.get_sets_for_musclegroups(
            user_id,
            &muscle_group_ids,
            start_date,
            end_date,
        ) {
            Ok(sets) => sets,
            Err(_) => {
                return Err(StoreError::Unavailable);
            },
        };
        let lookup = match workout.get_varaition_ids(user_id, &muscle_group_ids) {
            Ok(lookup) => lookup,
            Err(_) => {
                return Err(StoreError::Unavailable);
            },
        };
        proof {
            workout@.sets.lemma_filter_len(
                |row: crate::db::model::WorkoutSet|
                    row.user_id == user_id as int && start_date@ <= row.performed_on@ <= end_date@
                        && crate::db::workouts::joins_groups(
                        workout@.variations,
                        muscle_group_ids@,
                        user_id as int,
                        row.variation_id as int,
                    ),
            );
        }
        Ok(sets_per_muscle_group(&sets, &lookup))
    }

    /// The name of the week in which `date` lies: its calendar month, `-W`
    /// and its ISO week number, as in `6-W23`.
    pub fn get_week_label(date: Date) -> (r: String)
        ensures
            r@ == WeekLabel::of_day(date@).text(),
    {
        WeekLabel::of(&date).to_string()
    }

    /// The muscle groups that the user `user_id` sees.
    pub fn get_muscle_groups(&self, workout: &WorkoutDB, user_id: i32) -> (r: Result<
        Vec<MuscleGroup>,
        StoreError,
    >)
        ensures
            !workout@.open ==> r == Err::<Vec<MuscleGroup>, StoreError>(StoreError::Unavailable),
            workout@.open ==> (r matches Ok(rows) && rows@ == visible_muscle_groups(
                workout@.muscle_groups,
                user_id as int,
            )),
    {
        workout.get_all_muscle_groups(user_id)
    }

    /// The variations that the user `user_id` sees.
    pub fn get_variations(&self, workout: &WorkoutDB, user_id: i32) -> (r: Result<
        Vec<Variation>,
        StoreError,
    >)
        ensures
            !workout@.open ==> r == Err::<Vec<Variation>, StoreError>(StoreError::Unavailable),
            workout@.open ==> (r matches Ok(rows) && rows@ == visible_variations(
                workout@.variations,
                user_id as int,
            )),
    {
        workout.get_all_variations(user_id)
    }

    /// The cardio exercises that the user `user_id` sees.
    pub fn get_cardio_exercises(&self, workout: &WorkoutDB, user_id: i32) -> (r: Result<
        Vec<CardioExercise>,
        StoreError,
    >)
        ensures
            !workout@.open ==> r == Err::<Vec<CardioExercise>, StoreError>(StoreError::Unavailable),
            workout@.open ==> (r matches Ok(rows) && rows@ == visible_cardio_exercises(
                workout@.cardio_exercises,
                user_id as int,
            )),
    {
        workout.get_all_cardio_exercises(user_id)
    }
}

} // verus!
