//! The write path for new rows, and the reads of single sessions.

use crate::api::workouts::{
    CardioSet, CreateCardioExerciseRequest, CreateMuscleGroupRequest, CreateVariationRequest,
    StrengthSet,
};
use crate::calendar::{Date, DateTime};
use crate::db::model::{
    CardioLog, NewCardioExercise, NewCardioLog, NewMuscleGroup, NewVariation, NewWorkoutSession,
    NewWorkoutSet, UpdateCardioLog, UpdateWorkoutSession, UpdateWorkoutSet, WorkoutSession,
    WorkoutSet,
};
use crate::db::workouts::{
    cardio_logs_of, cardio_logs_of_session, history, owns_cardio_log, owns_session, owns_set,
    sessions_of, sets_of, sets_of_session, Entity, StoreError, WorkoutDB,
};
use crate::services::answers::{
    cardio_exercise_add_outcome, cardio_log_add_outcome, cardio_log_delete_outcome,
    cardio_log_update_outcome, muscle_group_add_outcome, new_cardio_log, new_session, new_set,
    done, failed, session_add_outcome, session_delete_outcome, session_update_outcome,
    set_add_outcome, set_delete_outcome, set_update_outcome, variation_add_outcome, Answer,
};
use vstd::prelude::*;
use vstd::string::StringExecFns;

verus! {

/// The answer to a write request.
#[derive(Clone, Debug, PartialEq, Eq)]
pub struct PostResponse {
    pub user_id: i32,
    pub id: Option<i32>,
    pub success: bool,
    pub message: String,
}

impl View for PostResponse {
    type V = Answer;

    open spec fn view(&self) -> Answer {
        Answer {
            user_id: self.user_id as int,
            id: self.id,
            success: self.success,
            message: self.message@,
        }
    }
}

impl PostResponse {
    /// The answer to a request that was carried out.
    pub fn done(user_id: i32, id: Option<i32>, message: &str) -> (r: PostResponse)
        ensures
            r@ == done(user_id as int, id, message@),
    {
        PostResponse { user_id, id, success: true, message: String::from_str(message) }
    }

    /// The answer to a request about a row of the kind `entity` that failed
    /// with `error`.
    pub fn failed(user_id: i32, error: StoreError, entity: Entity) -> (r: PostResponse)
        ensures
            r@ == failed(user_id as int, error, entity),
    {
        PostResponse { user_id, id: None, success: false, message: error.message(entity) }
    }
}

/// The write path for new rows.
pub struct PostService {}

impl PostService {
    /// The service.
    pub fn new() -> (r: PostService) {
        PostService {  }
    }

    /// Stores the session of a request and says how it went.
    ///
    /// A session without a title is stored as `Session-` and its date.
    pub fn add_workout_session(
        &self,
        workout: &mut WorkoutDB,
        session_request: crate::api::workouts::WorkoutSession,
    ) -> (r: PostResponse)
        requires
            old(workout)@.wf(),
        ensures
            final(workout)@.wf(),
            session_add_outcome(old(workout)@, final(workout)@, new_session(session_request), r@),
    {
        let workout_session = NewWorkoutSession {
            user_id: session_request.user_id,
            date: session_request.date,
            title: session_request.title,
            notes: session_request.notes,
            start_time: session_request.start_time,
            end_time: session_request.end_time,
        };
        let user_id: i32 = workout_session.user_id;
        match workout.add_workout_session(workout_session) {
            Ok(session) => PostResponse::done(session.user_id, Some(session.id), "Session Added"),
            Err(err) => PostResponse::failed(user_id, err, Entity::Session),
        }
    }

    /// Stores the set of a request as it is and says how it went.
    pub fn add_workout_set(&self, workout: &mut WorkoutDB, session_request: StrengthSet) -> (r:
        PostResponse)
        requires
            old(workout)@.wf(),
        ensures
            final(workout)@.wf(),
            set_add_outcome(old(workout)@, final(workout)@, new_set(session_request), r@),
    {
        let workout_set = NewWorkoutSet {
            user_id: session_request.user_id,
            workout_session_id: session_request.workout_session_id,
            variation_id: session_request.variation_id,
            weight_bits: session_request.weight_bits,
            reps: session_request.reps,
            performed_on: session_request.performed_on,
        };
        match workout.add_workout_set(workout_set) {
            Ok(_) => PostResponse::done(session_request.user_id, None, "Set Added"),
            Err(err) => PostResponse::failed(session_request.user_id, err, Entity::StrengthSet),
        }
    }

    /// Stores the cardio log of a request, made on the day `performed_on`,
    /// and says how it went.
    pub fn add_cardio_set(
        &self,
        workout: &mut WorkoutDB,
        session_request: CardioSet,
        performed_on: Date,
    ) -> (r: PostResponse)
        requires
            old(workout)@.wf(),
        ensures
            final(workout)@.wf(),
            cardio_log_add_outcome(
                old(workout)@,
                final(workout)@,
                new_cardio_log(session_request, performed_on),
                r@,
            ),
    {
        let log = NewCardioLog {
            user_id: session_request.user_id,
            workout_session_id: session_request.workout_session_id,
            cardio_exercise_id: session_request.cardio_exercise_id,
            duration_minutes: session_request.duration,
            performed_on,
        };
        match workout.add_workout_cardio(log) {
            Ok(_) => PostResponse::done(session_request.user_id, None, "Cardio Log Added"),
            Err(err) => PostResponse::failed(session_request.user_id, err, Entity::CardioLog),
        }
    }

    /// Stores the muscle group of a request for the user `user_id` and
    /// says how it went.
    pub fn add_muscle_group(
        &self,
        workout: &mut WorkoutDB,
        user_id: i32,
        request: CreateMuscleGroupRequest,
    ) -> (r: PostResponse)
        requires
            old(workout)@.wf(),
        ensures
            final(workout)@.wf(),
            muscle_group_add_outcome(
                old(workout)@,
                final(workout)@,
                (NewMuscleGroup { name: request.name, user_id }),
                r@,
            ),
    {
        let data = NewMuscleGroup { name: request.name, user_id };
        match workout.add_muscle_group(data) {
            Ok(row) => PostResponse::done(user_id, Some(row.id), "Muscle Group Added"),
            Err(err) => PostResponse::failed(user_id, err, Entity::Catalog),
        }
    }

    /// Stores the variation of a request for the user `user_id` and
    /// says how it went.
    pub fn add_variation(
        &self,
        workout: &mut WorkoutDB,
        user_id: i32,
        request: CreateVariationRequest,
    ) -> (r: PostResponse)
        requires
            old(workout)@.wf(),
        ensures
            final(workout)@.wf(),
            variation_add_outcome(
                old(workout)@,
                final(workout)@,
                (NewVariation {
                    muscle_group_id: request.muscle_group_id,
                    name: request.name,
                    user_id,
                }),
                r@,
            ),
    {
        let data = NewVariation {
            muscle_group_id: request.muscle_group_id,
            name: request.name,
            user_id,
        };
        match workout.add_variation(data) {
            Ok(row) => PostResponse::done(user_id, Some(row.id), "Variation Added"),
            Err(err) => PostResponse::failed(user_id, err, Entity::Catalog),
        }
    }

    /// Stores the cardio exercise of a request for the user `user_id` and
    /// says how it went.
    pub fn add_cardio_exercise(
        &self,
        workout: &mut WorkoutDB,
        user_id: i32,
        request: CreateCardioExerciseRequest,
    ) -> (r: PostResponse)
        requires
            old(workout)@.wf(),
        ensures
            final(workout)@.wf(),
            cardio_exercise_add_outcome(
                old(workout)@,
                final(workout)@,
                (NewCardioExercise { name: request.name, user_id }),
                r@,
            ),
    {
        let data = NewCardioExercise { name: request.name, user_id };
        match workout.add_cardio_exercise(data) {
            Ok(row) => PostResponse::done(user_id, Some(row.id), "Cardio Exercise Added"),
            Err(err) => PostResponse::failed(user_id, err, Entity::Catalog),
        }
    }

    /// Changes the session `session_id` of the user `user_id` and says how it
    /// went. Only the fields that are given change.
    pub fn update_workout_session(
        &self,
        workout: &mut WorkoutDB,
        user_id: i32,
        session_id: i32,
        title: Option<String>,
        end_time: Option<DateTime>,
        notes: Option<String>,
    ) -> (r: PostResponse)
        requires
            old(workout)@.wf(),
        ensures
            final(workout)@.wf(),
            session_update_outcome(
                old(workout)@,
                final(workout)@,
                user_id as int,
                session_id as int,
                (UpdateWorkoutSession { title, date: None, start_time: None, end_time, notes }),
                r@,
            ),
    {
        proof {
            if sessions_of(workout@.sessions, user_id as int, session_id as int).len() > 0 {
                workout@.sessions.lemma_filter_pred(
                    |row: WorkoutSession| owns_session(row, user_id as int, session_id as int),
                    0,
                );
            }
        }
        let update_data = UpdateWorkoutSession {
            title,
            date: None,
            start_time: None,
            end_time,
            notes,
        };
        match workout.update_workout_session(user_id, session_id, update_data) {
            Ok(row) => PostResponse::done(user_id, Some(row.id), "Session Updated"),
            Err(err) => PostResponse::failed(user_id, err, Entity::Session),
        }
    }

    /// Deletes the session `session_id` of the user `user_id` and says how it
    /// went.
    pub fn delete_workout_session(
        &self,
        workout: &mut WorkoutDB,
        user_id: i32,
        session_id: i32,
    ) -> (r: PostResponse)
        requires
            old(workout)@.wf(),
        ensures
            final(workout)@.wf(),
            session_delete_outcome(
                old(workout)@,
                final(workout)@,
                user_id as int,
                session_id as int,
                r@,
            ),
    {
        match workout.delete_workout_session(user_id, session_id) {
            Ok(_) => PostResponse::done(user_id, Some(session_id), "Session Deleted"),
            Err(err) => PostResponse::failed(user_id, err, Entity::Session),
        }
    }

    /// Changes the set `set_id` of the user `user_id` and says how it
    /// went. Only the fields that are given change.
    pub fn update_workout_set(
        &self,
        workout: &mut WorkoutDB,
        user_id: i32,
        set_id: i32,
        weight_bits: Option<u64>,
        reps: Option<i32>,
    ) -> (r: PostResponse)
        requires
            old(workout)@.wf(),
        ensures
            final(workout)@.wf(),
            set_update_outcome(
                old(workout)@,
                final(workout)@,
                user_id as int,
                set_id as int,
                (UpdateWorkoutSet { weight_bits, reps }),
                r@,
            ),
    {
        proof {
            if sets_of(workout@.sets, user_id as int, set_id as int).len() > 0 {
                workout@.sets.lemma_filter_pred(
                    |row: WorkoutSet| owns_set(row, user_id as int, set_id as int),
                    0,
                );
            }
        }
        let update_data = UpdateWorkoutSet { weight_bits, reps };
        match workout.update_workout_set(user_id, set_id, update_data) {
            Ok(row) => PostResponse::done(user_id, Some(row.id), "Set Updated"),
            Err(err) => PostResponse::failed(user_id, err, Entity::StrengthSet),
        }
    }

    /// Deletes the set `set_id` of the user `user_id` and says how it
    /// went.
    pub fn delete_workout_set(
        &self,
        workout: &mut WorkoutDB,
        user_id: i32,
        set_id: i32,
    ) -> (r: PostResponse)
        requires
            old(workout)@.wf(),
        ensures
            final(workout)@.wf(),
            set_delete_outcome(old(workout)@, final(workout)@, user_id as int, set_id as int, r@),
    {
        match workout.delete_workout_set(user_id, set_id) {
            Ok(_) => PostResponse::done(user_id, Some(set_id), "Set Deleted"),
            Err(err) => PostResponse::failed(user_id, err, Entity::StrengthSet),
        }
    }

    /// Changes the cardio log `log_id` of the user `user_id` and says how it
    /// went. Only the fields that are given change.
    pub fn update_cardio_log(
        &self,
        workout: &mut WorkoutDB,
        user_id: i32,
        log_id: i32,
        duration_minutes: Option<i32>,
    ) -> (r: PostResponse)
        requires
            old(workout)@.wf(),
        ensures
            final(workout)@.wf(),
            cardio_log_update_outcome(
                old(workout)@,
                final(workout)@,
                user_id as int,
                log_id as int,
                (UpdateCardioLog { duration_minutes }),
                r@,
            ),
    {
        proof {
            if cardio_logs_of(workout@.cardio_logs, user_id as int, log_id as int).len() > 0 {
                workout@.cardio_logs.lemma_filter_pred(
                    |row: CardioLog| owns_cardio_log(row, user_id as int, log_id as int),
                    0,
                );
            }
        }
        let update_data = UpdateCardioLog { duration_minutes };
        match workout.update_cardio_log(user_id, log_id, update_data) {
            Ok(row) => PostResponse::done(user_id, Some(row.id), "Cardio Log Updated"),
            Err(err) => PostResponse::failed(user_id, err, Entity::CardioLog),
        }
    }

    /// Deletes the cardio log `log_id` of the user `user_id` and says how it
    /// went.
    pub fn delete_cardio_log(
        &self,
        workout: &mut WorkoutDB,
        user_id: i32,
        log_id: i32,
    ) -> (r: PostResponse)
        requires
            old(workout)@.wf(),
        ensures
            final(workout)@.wf(),
            cardio_log_delete_outcome(
                old(workout)@,
                final(workout)@,
                user_id as int,
                log_id as int,
                r@,
            ),
    {
        match workout.delete_cardio_log(user_id, log_id) {
            Ok(_) => PostResponse::done(user_id, Some(log_id), "Cardio Log Deleted"),
            Err(err) => PostResponse::failed(user_id, err, Entity::CardioLog),
        }
    }

    /// The latest `limit` sessions of the user `user_id`, the latest first.
    pub fn get_history(&self, workout: &WorkoutDB, user_id: i32, limit: i64) -> (r: Result<
        Vec<WorkoutSession>,
        StoreError,
    >)
        ensures
            !workout@.open || limit < 0 ==> r == Err::<Vec<WorkoutSession>, StoreError>(
                StoreError::Unavailable,
            ),
            workout@.open && limit >= 0 ==> (r matches Ok(rows) && rows@ == history(
                workout@.sessions,
                user_id as int,
                limit as int,
            )),
    {
        workout.get_history(user_id, limit)
    }

    /// The session `session_id` of the user `user_id` with its sets and its
    /// cardio logs.
    pub fn get_session_details(&self, workout: &WorkoutDB, user_id: i32, session_id: i32) -> (r:
        Result<(WorkoutSession, Vec<WorkoutSet>, Vec<CardioLog>), StoreError>)
        ensures
            !workout@.open ==> r is Err && r->Err_0 == StoreError::Unavailable,
            workout@.open ==> {
                let found = sessions_of(workout@.sessions, user_id as int, session_id as int);
                &&& found.len() == 0 ==> r is Err && r->Err_0 == StoreError::NotFoundOrForbidden
                &&& found.len() > 0 ==> (r matches Ok(details) && details.0 == found[0]
                    && details.1@ == sets_of_session(
                    workout@.sets,
                    user_id as int,
                    session_id as int,
                ) && details.2@ == cardio_logs_of_session(
                    workout@.cardio_logs,
                    user_id as int,
                    session_id as int,
                ))
            },
    {
        workout.get_session_details(user_id, session_id)
    }
}

} // verus!
