//! The write path for changes and deletions.
//!
//! Every change names the acting user, and reaches only that user's rows.

use crate::calendar::{Date, DateTime};
use crate::db::logger::LoggerDB;
use crate::db::model::{
    CardioLog, UpdateCardioLog, UpdateWorkoutSession, UpdateWorkoutSet, WorkoutSession, WorkoutSet,
};
use crate::db::workouts::{
    cardio_logs_of, owns_cardio_log, owns_session, owns_set, sessions_of, sets_of, Entity,
    StoreError,
};
use crate::services::answers::{
    cardio_log_delete_outcome, cardio_log_update_outcome, done, failed, session_delete_outcome,
    session_update_outcome, set_delete_outcome, set_update_outcome, Answer,
};
use vstd::prelude::*;
use vstd::string::StringExecFns;

verus! {

/// The answer to a change or delete request.
#[derive(Clone, Debug, PartialEq, Eq)]
pub struct PutResponse {
    pub user_id: i32,
    pub id: Option<i32>,
    pub success: bool,
    pub message: String,
}

impl View for PutResponse {
    type V = Answer;

    open spec fn view(&self) -> Answer {
        Answer {
            user_id: self.user_id as int,
            id: self.id,
            success: self.success,
            message: self.message@,
        }
    }
}

impl PutResponse {
    /// The answer to a request that was carried out.
    pub fn done(user_id: i32, id: Option<i32>, message: &str) -> (r: PutResponse)
        ensures
            r@ == done(user_id as int, id, message@),
    {
        PutResponse { user_id, id, success: true, message: String::from_str(message) }
    }

    /// The answer to a request about a row of the kind `entity` that failed
    /// with `error`.
    pub fn failed(user_id: i32, error: StoreError, entity: Entity) -> (r: PutResponse)
        ensures
            r@ == failed(user_id as int, error, entity),
    {
        PutResponse { user_id, id: None, success: false, message: error.message(entity) }
    }
}

/// The write path for changes and deletions.
pub struct PutService {}

impl PutService {
    /// The service.
    pub fn new() -> (r: PutService) {
        PutService {  }
    }

    /// Changes the session `session_id` of the user `user_id` and says how it
    /// went. Only the fields that are given change.
    pub fn update_workout_session(
        &self,
        logger: &mut LoggerDB,
        user_id: i32,
        session_id: i32,
        title: Option<String>,
        date: Option<Date>,
        start_time: Option<DateTime>,
        end_time: Option<DateTime>,
        notes: Option<String>,
    ) -> (r: PutResponse)
        requires
            old(logger)@.wf(),
        ensures
            final(logger)@.wf(),
            session_update_outcome(
                old(logger)@,
                final(logger)@,
                user_id as int,
                session_id as int,
                (UpdateWorkoutSession { title, date, start_time, end_time, notes }),
                r@,
            ),
    {
        proof {
            if sessions_of(logger@.sessions, user_id as int, session_id as int).len() > 0 {
                logger@.sessions.lemma_filter_pred(
                    |row: WorkoutSession| owns_session(row, user_id as int, session_id as int),
                    0,
                );
            }
        }
        let update_data = UpdateWorkoutSession { title, date, start_time, end_time, notes };
        match logger.update_workout_session(user_id, session_id, update_data) {
            Ok(row) => PutResponse::done(user_id, Some(row.id), "Session Updated"),
            Err(err) => PutResponse::failed(user_id, err, Entity::Session),
        }
    }

    /// Deletes the session `session_id` of the user `user_id` and says how it
    /// went.
    pub fn delete_workout_session(
        &self,
        logger: &mut LoggerDB,
        user_id: i32,
        session_id: i32,
    ) -> (r: PutResponse)
        requires
            old(logger)@.wf(),
        ensures
            final(logger)@.wf(),
            session_delete_outcome(
                old(logger)@,
                final(logger)@,
                user_id as int,
                session_id as int,
                r@,
            ),
    {
        match logger.delete_workout_session(user_id, session_id) {
            Ok(_) => PutResponse::done(user_id, Some(session_id), "Session Deleted"),
            Err(err) => PutResponse::failed(user_id, err, Entity::Session),
        }
    }

    /// Changes the set `set_id` of the user `user_id` and says how it
    /// went. Only the fields that are given change.
    pub fn update_workout_set(
        &self,
        logger: &mut LoggerDB,
        user_id: i32,
        set_id: i32,
        weight_bits: Option<u64>,
        reps: Option<i32>,
    ) -> (r: PutResponse)
        requires
            old(logger)@.wf(),
        ensures
            final(logger)@.wf(),
            set_update_outcome(
                old(logger)@,
                final(logger)@,
                user_id as int,
                set_id as int,
                (UpdateWorkoutSet { weight_bits, reps }),
                r@,
            ),
    {
        proof {
            if sets_of(logger@.sets, user_id as int, set_id as int).len() > 0 {
                logger@.sets.lemma_filter_pred(
                    |row: WorkoutSet| owns_set(row, user_id as int, set_id as int),
                    0,
                );
            }
        }
        let update_data = UpdateWorkoutSet { weight_bits, reps };
        match logger.update_workout_set(user_id, set_id, update_data) {
            Ok(row) => PutResponse::done(user_id, Some(row.id), "Set Updated"),
            Err(err) => PutResponse::failed(user_id, err, Entity::StrengthSet),
        }
    }

    /// Deletes the set `set_id` of the user `user_id` and says how it
    /// went.
    pub fn delete_workout_set(
        &self,
        logger: &mut LoggerDB,
        user_id: i32,
        set_id: i32,
    ) -> (r: PutResponse)
        requires
            old(logger)@.wf(),
        ensures
            final(logger)@.wf(),
            set_delete_outcome(old(logger)@, final(logger)@, user_id as int, set_id as int, r@),
    {
        match logger.delete_workout_set(user_id, set_id) {
            Ok(_) => PutResponse::done(user_id, Some(set_id), "Set Deleted"),
            Err(err) => PutResponse::failed(user_id, err, Entity::StrengthSet),
        }
    }

    /// Changes the cardio log `log_id` of the user `user_id` and says how it
    /// went. Only the fields that are given change.
    pub fn update_cardio_log(
        &self,
        logger: &mut LoggerDB,
        user_id: i32,
        log_id: i32,
        duration_minutes: Option<i32>,
    ) -> (r: PutResponse)
        requires
            old(logger)@.wf(),
        ensures
            final(logger)@.wf(),
            cardio_log_update_outcome(
                old(logger)@,
                final(logger)@,
                user_id as int,
                log_id as int,
                (UpdateCardioLog { duration_minutes }),
                r@,
            ),
    {
        proof {
            if cardio_logs_of(logger@.cardio_logs, user_id as int, log_id as int).len() > 0 {
                logger@.cardio_logs.lemma_filter_pred(
                    |row: CardioLog| owns_cardio_log(row, user_id as int, log_id as int),
                    0,
                );
            }
        }
        let update_data = UpdateCardioLog { duration_minutes };
        match logger.update_cardio_log(user_id, log_id, update_data) {
            Ok(row) => PutResponse::done(user_id, Some(row.id), "Cardio Log Updated"),
            Err(err) => PutResponse::failed(user_id, err, Entity::CardioLog),
        }
    }

    /// Deletes the cardio log `log_id` of the user `user_id` and says how it
    /// went.
    pub fn delete_cardio_log(
        &self,
        logger: &mut LoggerDB,
        user_id: i32,
        log_id: i32,
    ) -> (r: PutResponse)
        requires
            old(logger)@.wf(),
        ensures
            final(logger)@.wf(),
            cardio_log_delete_outcome(
                old(logger)@,
                final(logger)@,
                user_id as int,
                log_id as int,
                r@,
            ),
    {
        match logger.delete_cardio_log(user_id, log_id) {
            Ok(_) => PutResponse::done(user_id, Some(log_id), "Cardio Log Deleted"),
            Err(err) => PutResponse::failed(user_id, err, Entity::CardioLog),
        }
    }
}

} // verus!
