//! The requests of the workout endpoints and what each endpoint does with
//! them, up to the point where the answer is written out.
//!
//! The acting user comes from the verified token, never from the request: a
//! user id in a request body is overwritten.

use crate::api::error::{ApiError, INTERNAL_SERVER_ERROR, NOT_FOUND};
use crate::api::middleware::AuthenticatedUser;
use crate::calendar::{Date, DateTime};
use crate::db::model::{
    CardioExercise, CardioLog, MuscleGroup, NewCardioExercise, NewMuscleGroup, NewVariation,
    UpdateCardioLog, UpdateWorkoutSession, UpdateWorkoutSet, Variation,
};
use crate::db::workouts::{
    cardio_logs_of_session, error_text, history, sessions_of, sets_of_session,
    visible_cardio_exercises, visible_muscle_groups, visible_variations, Entity, StoreError,
    WorkoutDB,
};
use crate::services::answers::{
    cardio_exercise_add_outcome, cardio_log_add_outcome, cardio_log_delete_outcome,
    cardio_log_update_outcome, muscle_group_add_outcome, new_cardio_log, new_session, new_set,
    session_add_outcome, session_delete_outcome, session_update_outcome, set_add_outcome,
    set_delete_outcome, set_update_outcome, variation_add_outcome,
};
use crate::services::get_service::GetService;
use crate::services::post_service::{PostResponse, PostService};
use crate::services::put_service::{PutResponse, PutService};
use vstd::string::StringExecFns;
use vstd::prelude::*;

verus! {

/// A strength set as a client sends it. The weight is the 64 bits of its
/// binary floating-point value.
#[derive(Clone, Copy, Debug, PartialEq, Eq, Structural)]
pub struct StrengthSet {
    pub user_id: i32,
    pub workout_session_id: Option<i32>,
    pub muscle_group_id: i32,
    pub variation_id: i32,
    pub weight_bits: u64,
    pub reps: i32,
    pub performed_on: Date,
}

/// A cardio log as a client sends it.
#[derive(Clone, Copy, Debug, PartialEq, Eq, Structural)]
pub struct CardioSet {
    pub user_id: i32,
    pub workout_session_id: Option<i32>,
    pub cardio_exercise_id: i32,
    pub duration: i32,
}

/// A session as a client sends it.
#[derive(Clone, Debug, PartialEq, Eq)]
pub struct WorkoutSession {
    pub user_id: i32,
    pub title: Option<String>,
    pub notes: Option<String>,
    pub date: Date,
    pub start_time: DateTime,
    pub end_time: DateTime,
}

/// The fields of a session that a client wants changed.
#[derive(Clone, Debug, PartialEq, Eq)]
pub struct UpdateSessionRequest {
    pub title: Option<String>,
    pub date: Option<Date>,
    pub start_time: Option<DateTime>,
    pub end_time: Option<DateTime>,
    pub notes: Option<String>,
}

/// The fields of a set that a client wants changed.
#[derive(Clone, Copy, Debug, PartialEq, Eq, Structural)]
pub struct UpdateSetRequest {
    pub weight_bits: Option<u64>,
    pub reps: Option<i32>,
}

/// The fields of a cardio log that a client wants changed.
#[derive(Clone, Copy, Debug, PartialEq, Eq, Structural)]
pub struct UpdateCardioRequest {
    pub duration: Option<i32>,
}

/// A session with its sets and cardio logs.
#[derive(Clone, Debug, PartialEq, Eq)]
pub struct SessionDetailsResponse {
    pub session: crate::db::model::WorkoutSession,
    pub sets: Vec<crate::db::model::WorkoutSet>,
    pub cardio_logs: Vec<CardioLog>,
}

/// How much of the history a client wants.
#[derive(Clone, Copy, Debug, PartialEq, Eq, Structural)]
pub struct HistoryQuery {
    pub limit: Option<i64>,
    pub start_date: Option<Date>,
    pub end_date: Option<Date>,
}

impl HistoryQuery {
    /// How many sessions the request asks for: its limit, or
    /// `DEFAULT_HISTORY_LIMIT` where it names none.
    pub fn limit_or_default(&self) -> (r: i64)
        ensures
            r == match self.limit {
                Some(limit) => limit,
                None => DEFAULT_HISTORY_LIMIT,
            },
    {
        match self.limit {
            Some(limit) => limit,
            None => DEFAULT_HISTORY_LIMIT,
        }
    }
}

/// A muscle group that a client wants created.
#[derive(Clone, Debug, PartialEq, Eq)]
pub struct CreateMuscleGroupRequest {
    pub name: String,
}

/// A variation that a client wants created.
#[derive(Clone, Debug, PartialEq, Eq)]
pub struct CreateVariationRequest {
    pub muscle_group_id: i32,
    pub name: String,
}

/// A cardio exercise that a client wants created.
#[derive(Clone, Debug, PartialEq, Eq)]
pub struct CreateCardioExerciseRequest {
    pub name: String,
}

/// How many sessions a history holds where the request does not say.
pub const DEFAULT_HISTORY_LIMIT: i64 = 20;

/// The session of a request with the acting user as its owner, whoever the
/// request names.
pub open spec fn session_of_user(payload: WorkoutSession, user_id: i32) -> WorkoutSession {
    WorkoutSession {
        user_id,
        title: payload.title,
        notes: payload.notes,
        date: payload.date,
        start_time: payload.start_time,
        end_time: payload.end_time,
    }
}

/// The set of a request with the acting user as its owner.
pub open spec fn set_of_user(payload: StrengthSet, user_id: i32) -> StrengthSet {
    StrengthSet {
        user_id,
        workout_session_id: payload.workout_session_id,
        muscle_group_id: payload.muscle_group_id,
        variation_id: payload.variation_id,
        weight_bits: payload.weight_bits,
        reps: payload.reps,
        performed_on: payload.performed_on,
    }
}

/// The cardio log of a request with the acting user as its owner.
pub open spec fn cardio_of_user(payload: CardioSet, user_id: i32) -> CardioSet {
    CardioSet {
        user_id,
        workout_session_id: payload.workout_session_id,
        cardio_exercise_id: payload.cardio_exercise_id,
        duration: payload.duration,
    }
}

/// The words of a failed read: `Error: ` and what the store says.
pub open spec fn read_failure_text(error: StoreError) -> Seq<char> {
    "Error: "@ + error_text(error, Entity::Session)
}

/// The answer to a read that the store could not serve.
fn read_failure(status: u16, error: StoreError) -> (r: ApiError)
    ensures
        r.is(status as int, read_failure_text(error)),
{
    let mut message = String::from_str("Error: ");
    let text = error.message(Entity::Session);
    message.append(text.as_str());
    ApiError { status, message }
}

/// The workout endpoints.
pub struct Workouts {}

impl Workouts {
    /// The endpoints.
    pub fn new() -> (r: Workouts) {
        Workouts {  }
    }

    /// Stores the session of the request for the acting user.
    pub fn workout_session_handler(
        post_service: &PostService,
        workout: &mut WorkoutDB,
        payload: WorkoutSession,
        user: &AuthenticatedUser,
    ) -> (r: PostResponse)
        requires
            old(workout)@.wf(),
        ensures
            final(workout)@.wf(),
            session_add_outcome(
                old(workout)@,
                final(workout)@,
                new_session(session_of_user(payload, user.id)),
                r@,
            ),
    {
        let mut session = payload;
        session.user_id = user.id;
        post_service.add_workout_session(workout, session)
    }

    /// Stores the set of the request for the acting user.
    pub fn workout_set_handler(
        post_service: &PostService,
        workout: &mut WorkoutDB,
        payload: StrengthSet,
        user: &AuthenticatedUser,
    ) -> (r: PostResponse)
        requires
            old(workout)@.wf(),
        ensures
            final(workout)@.wf(),
            set_add_outcome(
                old(workout)@,
                final(workout)@,
                new_set(set_of_user(payload, user.id)),
                r@,
            ),
    {
        let mut set = payload;
        set.user_id = user.id;
        post_service.add_workout_set(workout, set)
    }

    /// Stores the cardio log of the request, made on the day `today`, for
    /// the acting user.
    pub fn cardio_log_handler(
        post_service: &PostService,
        workout: &mut WorkoutDB,
        payload: CardioSet,
        user: &AuthenticatedUser,
        today: Date,
    ) -> (r: PostResponse)
        requires
            old(workout)@.wf(),
        ensures
            final(workout)@.wf(),
            cardio_log_add_outcome(
                old(workout)@,
                final(workout)@,
                new_cardio_log(cardio_of_user(payload, user.id), today),
                r@,
            ),
    {
        let mut log = payload;
        log.user_id = user.id;
        post_service.add_cardio_set(workout, log, today)
    }

    /// Changes the session `session_id` of the acting user.
    pub fn update_session_handler(
        put_service: &PutService,
        workout: &mut WorkoutDB,
        user: &AuthenticatedUser,
        session_id: i32,
        payload: UpdateSessionRequest,
    ) -> (r: PutResponse)
        requires
            old(workout)@.wf(),
        ensures
            final(workout)@.wf(),
            session_update_outcome(
                old(workout)@,
                final(workout)@,
                user.id as int,
                session_id as int,
                (UpdateWorkoutSession {
                    title: payload.title,
                    date: payload.date,
                    start_time: payload.start_time,
                    end_time: payload.end_time,
                    notes: payload.notes,
                }),
                r@,
            ),
    {
        put_service.update_workout_session(
            workout,
            user.id,
            session_id,
            payload.title,
            payload.date,
            payload.start_time,
            payload.end_time,
            payload.notes,
        )
    }

    /// Deletes the session `session_id` of the acting user.
    pub fn delete_session_handler(
        put_service: &PutService,
        workout: &mut WorkoutDB,
        user: &AuthenticatedUser,
        session_id: i32,
    ) -> (r: PutResponse)
        requires
            old(workout)@.wf(),
        ensures
            final(workout)@.wf(),
            session_delete_outcome(
                old(workout)@,
                final(workout)@,
                user.id as int,
                session_id as int,
                r@,
            ),
    {
        put_service.delete_workout_session(workout, user.id, session_id)
    }

    /// Changes the set `set_id` of the acting user.
    pub fn update_set_handler(
        put_service: &PutService,
        workout: &mut WorkoutDB,
        user: &AuthenticatedUser,
        set_id: i32,
        payload: UpdateSetRequest,
    ) -> (r: PutResponse)
        requires
            old(workout)@.wf(),
        ensures
            final(workout)@.wf(),
            set_update_outcome(
                old(workout)@,
                final(workout)@,
                user.id as int,
                set_id as int,
                (UpdateWorkoutSet { weight_bits: payload.weight_bits, reps: payload.reps }),
                r@,
            ),
    {
        put_service.update_workout_set(workout, user.id, set_id, payload.weight_bits, payload.reps)
    }

    /// Deletes the set `set_id` of the acting user.
    pub fn delete_set_handler(
        put_service: &PutService,
        workout: &mut WorkoutDB,
        user: &AuthenticatedUser,
        set_id: i32,
    ) -> (r: PutResponse)
        requires
            old(workout)@.wf(),
        ensures
            final(workout)@.wf(),
            set_delete_outcome(old(workout)@, final(workout)@, user.id as int, set_id as int, r@),
    {
        put_service.delete_workout_set(workout, user.id, set_id)
    }

    /// Changes the cardio log `log_id` of the acting user.
    pub fn update_cardio_handler(
        put_service: &PutService,
        workout: &mut WorkoutDB,
        user: &AuthenticatedUser,
        log_id: i32,
        payload: UpdateCardioRequest,
    ) -> (r: PutResponse)
        requires
            old(workout)@.wf(),
        ensures
            final(workout)@.wf(),
            cardio_log_update_outcome(
                old(workout)@,
                final(workout)@,
                user.id as int,
                log_id as int,
                (UpdateCardioLog { duration_minutes: payload.duration }),
                r@,
            ),
    {
        put_service.update_cardio_log(workout, user.id, log_id, payload.duration)
    }

    /// Deletes the cardio log `log_id` of the acting user.
    pub fn delete_cardio_handler(
        put_service: &PutService,
        workout: &mut WorkoutDB,
        user: &AuthenticatedUser,
        log_id: i32,
    ) -> (r: PutResponse)
        requires
            old(workout)@.wf(),
        ensures
            final(workout)@.wf(),
            cardio_log_delete_outcome(
                old(workout)@,
                final(workout)@,
                user.id as int,
                log_id as int,
                r@,
            ),
    {
        put_service.delete_cardio_log(workout, user.id, log_id)
    }

    /// The latest sessions of the acting user, the latest first: as many as
    /// the request asks for, or `DEFAULT_HISTORY_LIMIT` where it does not
    /// say.
    pub fn history_handler(
        post_service: &PostService,
        workout: &WorkoutDB,
        user: &AuthenticatedUser,
        query: HistoryQuery,
    ) -> (r: Result<Vec<crate::db::model::WorkoutSession>, ApiError>)
        ensures
            ({
                let limit = match query.limit {
                    Some(limit) => limit,
                    None => DEFAULT_HISTORY_LIMIT,
                };
                if workout@.open && limit >= 0 {
                    r matches Ok(rows) && rows@ == history(
                        workout@.sessions,
                        user.id as int,
                        limit as int,
                    )
                } else {
                    r is Err && r->Err_0.is(
                        INTERNAL_SERVER_ERROR as int,
                        read_failure_text(StoreError::Unavailable),
                    )
                }
            }),
    {
        let limit: i64 = query.limit_or_default();
        match post_service.get_history(workout, user.id, limit) {
            Ok(rows) => Ok(rows),
            Err(error) => Err(read_failure(INTERNAL_SERVER_ERROR, error)),
        }
    }

    /// The session `session_id` of the acting user with its sets and cardio
    /// logs. A session of another user is not found, as one that does not
    /// exist.
    pub fn session_details_handler(
        post_service: &PostService,
        workout: &WorkoutDB,
        user: &AuthenticatedUser,
        session_id: i32,
    ) -> (r: Result<SessionDetailsResponse, ApiError>)
        ensures
            !workout@.open ==> r is Err && r->Err_0.is(
                NOT_FOUND as int,
                read_failure_text(StoreError::Unavailable),
            ),
            workout@.open ==> {
                let found = sessions_of(workout@.sessions, user.id as int, session_id as int);
                &&& found.len() == 0 ==> r is Err && r->Err_0.is(
                    NOT_FOUND as int,
                    read_failure_text(StoreError::NotFoundOrForbidden),
                )
                &&& found.len() > 0 ==> (r matches Ok(details) && details.session == found[0]
                    && details.sets@ == sets_of_session(
                    workout@.sets,
                    user.id as int,
                    session_id as int,
                ) && details.cardio_logs@ == cardio_logs_of_session(
                    workout@.cardio_logs,
                    user.id as int,
                    session_id as int,
                ))
            },
    {
        match post_service.get_session_details(workout, user.id, session_id) {
            Ok((session, sets, cardio)) => Ok(
                SessionDetailsResponse { session, sets, cardio_logs: cardio },
            ),
            Err(error) => Err(read_failure(NOT_FOUND, error)),
        }
    }

    /// The muscle groups that the acting user sees.
    pub fn get_muscle_groups_handler(
        get_service: &GetService,
        workout: &WorkoutDB,
        user: &AuthenticatedUser,
    ) -> (r:
        Result<Vec<MuscleGroup>, ApiError>)
        ensures
            !workout@.open ==> r is Err && r->Err_0.is(
                INTERNAL_SERVER_ERROR as int,
                read_failure_text(StoreError::Unavailable),
            ),
            workout@.open ==> (r matches Ok(rows) && rows@ == visible_muscle_groups(
                workout@.muscle_groups,
                user.id as int,
            )),
    {
        match get_service.get_muscle_groups(workout, user.id) {
            Ok(rows) => Ok(rows),
            Err(error) => Err(read_failure(INTERNAL_SERVER_ERROR, error)),
        }
    }

    /// The variations that the acting user sees.
    pub fn get_variations_handler(
        get_service: &GetService,
        workout: &WorkoutDB,
        user: &AuthenticatedUser,
    ) -> (r:
        Result<Vec<Variation>, ApiError>)
        ensures
            !workout@.open ==> r is Err && r->Err_0.is(
                INTERNAL_SERVER_ERROR as int,
                read_failure_text(StoreError::Unavailable),
            ),
            workout@.open ==> (r matches Ok(rows) && rows@ == visible_variations(
                workout@.variations,
                user.id as int,
            )),
    {
        match get_service.get_variations(workout, user.id) {
            Ok(rows) => Ok(rows),
            Err(error) => Err(read_failure(INTERNAL_SERVER_ERROR, error)),
        }
    }

    /// The cardio exercises that the acting user sees.
    pub fn get_cardio_exercises_handler(
        get_service: &GetService,
        workout: &WorkoutDB,
        user: &AuthenticatedUser,
    ) -> (r:
        Result<Vec<CardioExercise>, ApiError>)
        ensures
            !workout@.open ==> r is Err && r->Err_0.is(
                INTERNAL_SERVER_ERROR as int,
                read_failure_text(StoreError::Unavailable),
            ),
            workout@.open ==> (r matches Ok(rows) && rows@ == visible_cardio_exercises(
                workout@.cardio_exercises,
                user.id as int,
            )),
    {
        match get_service.get_cardio_exercises(workout, user.id) {
            Ok(rows) => Ok(rows),
            Err(error) => Err(read_failure(INTERNAL_SERVER_ERROR, error)),
        }
    }

    /// Stores the muscle group of the request for the acting user.
    pub fn create_muscle_group_handler(
        post_service: &PostService,
        workout: &mut WorkoutDB,
        user: &AuthenticatedUser,
        payload: CreateMuscleGroupRequest,
    ) -> (r: PostResponse)
        requires
            old(workout)@.wf(),
        ensures
            final(workout)@.wf(),
            muscle_group_add_outcome(
                old(workout)@,
                final(workout)@,
                (NewMuscleGroup { name: payload.name, user_id: user.id }),
                r@,
            ),
    {
        post_service.add_muscle_group(workout, user.id, payload)
    }

    /// Stores the variation of the request for the acting user.
    pub fn create_variation_handler(
        post_service: &PostService,
        workout: &mut WorkoutDB,
        user: &AuthenticatedUser,
        payload: CreateVariationRequest,
    ) -> (r: PostResponse)
        requires
            old(workout)@.wf(),
        ensures
            final(workout)@.wf(),
            variation_add_outcome(old(workout)@, final(workout)@, (NewVariation {
                    muscle_group_id: payload.muscle_group_id,
                    name: payload.name,
                    user_id: user.id,
                }), r@),
    {
        post_service.add_variation(workout, user.id, payload)
    }

    /// Stores the cardio exercise of the request for the acting user.
    pub fn create_cardio_exercise_handler(
        post_service: &PostService,
        workout: &mut WorkoutDB,
        user: &AuthenticatedUser,
        payload: CreateCardioExerciseRequest,
    ) -> (r: PostResponse)
        requires
            old(workout)@.wf(),
        ensures
            final(workout)@.wf(),
            cardio_exercise_add_outcome(
                old(workout)@,
                final(workout)@,
                (NewCardioExercise { name: payload.name, user_id: user.id }),
                r@,
            ),
    {
        post_service.add_cardio_exercise(workout, user.id, payload)
    }
}

} // verus!
