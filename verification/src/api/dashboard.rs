//! The dashboard endpoints: what each asks of the read side, once the
//! request has been read and before the answer is written.
//!
//! Dates arrive as text in the form `YYYY-MM-DD`. A date that cannot be read
//! is the client's error and is told in the words of the parser, as they
//! come from it; a failure of the store is the server's.

use crate::api::error::{ApiError, BAD_REQUEST, INTERNAL_SERVER_ERROR};
use crate::api::middleware::AuthenticatedUser;
use crate::calendar::{parsed_date, Date, ISO_DATE};
use crate::db::workouts::{
    error_text, sessions_in_month, sets_of_groups, sets_of_variation, variation_groups, Entity,
    StoreError, WorkoutDB,
};
use crate::services::get_service::GetService;
use crate::services::levels::{daily_levels, levels_view, WorkoutLevels};
use crate::services::performance::{is_series, WeekBucket};
use crate::services::volume::{group_lookup, group_summary, MuscleGroupVolume};
use vstd::prelude::*;
use vstd::string::StringExecFns;

verus! {

/// A request for the workout levels of a month.
#[derive(Clone, Copy, Debug, PartialEq, Eq, Structural)]
pub struct MonthlyWorkoutRequest {
    pub year: i32,
    pub month: i32,
}

/// A request for the performance series of a variation.
#[derive(Clone, Debug, PartialEq, Eq)]
pub struct PerformanceRequest {
    pub variation_id: i32,
    pub start_date: String,
    pub end_date: String,
}

/// A request for the set volume of some muscle groups.
#[derive(Clone, Debug, PartialEq, Eq)]
pub struct MuscleGroupSummaryRequest {
    pub muscle_group_ids: Vec<i32>,
    pub start_date: String,
    pub end_date: String,
}

/// The period that a request names: the days that its two dates give, or
/// why the first date that cannot be read cannot be read.
pub open spec fn requested_period(start_date: Seq<char>, end_date: Seq<char>) -> Result<
    (int, int),
    Seq<char>,
> {
    match parsed_date(start_date, ISO_DATE@) {
        Err(why) => Err("Invalid start_date format: "@ + why),
        Ok(start) => match parsed_date(end_date, ISO_DATE@) {
            Err(why) => Err("Invalid end_date format: "@ + why),
            Ok(end) => Ok((start, end)),
        },
    }
}

/// The period that a request names, or the error to answer with.
pub fn read_period(start_date: &str, end_date: &str) -> (r: Result<(Date, Date), ApiError>)
    ensures
        r is Ok <==> requested_period(start_date@, end_date@) is Ok,
        r matches Ok(period) ==> requested_period(start_date@, end_date@) == Ok::<
            (int, int),
            Seq<char>,
        >((period.0@, period.1@)),
        r matches Err(error) ==> requested_period(start_date@, end_date@) is Err && error.is(
            BAD_REQUEST as int,
            requested_period(start_date@, end_date@)->Err_0,
        ),
{
    let start = match Date::parse_from_str(start_date, ISO_DATE) {
        Ok(date) => date,
        Err(error) => {
            let mut message = String::from_str("Invalid start_date format: ");
            message.append(error.message.as_str());
            return Err(ApiError { status: BAD_REQUEST, message });
        },
    };
    let end = match Date::parse_from_str(end_date, ISO_DATE) {
        Ok(date) => date,
        Err(error) => {
            let mut message = String::from_str("Invalid end_date format: ");
            message.append(error.message.as_str());
            return Err(ApiError { status: BAD_REQUEST, message });
        },
    };
    Ok((start, end))
}

/// The answer to a request that the store could not serve.
fn store_failure(error: StoreError) -> (r: ApiError)
    ensures
        r.is(INTERNAL_SERVER_ERROR as int, error_text(error, Entity::Session)),
{
    ApiError { status: INTERNAL_SERVER_ERROR, message: error.message(Entity::Session) }
}

/// The dashboard endpoints.
pub struct Dashboard {}

impl Dashboard {
    /// The endpoints.
    pub fn new() -> (r: Dashboard) {
        Dashboard {  }
    }

    /// The workout levels of the acting user for the month of the request:
    /// one entry for each day of the month on which the user logged time.
    pub fn monthly_workout_levels_handler(
        get_service: &GetService,
        workout: &WorkoutDB,
        user: &AuthenticatedUser,
        payload: MonthlyWorkoutRequest,
    ) -> (r: Result<Vec<WorkoutLevels>, ApiError>)
        ensures
            !workout@.open ==> r is Err && r->Err_0.is(
                INTERNAL_SERVER_ERROR as int,
                error_text(StoreError::Unavailable, Entity::Session),
            ),
            workout@.open ==> (r matches Ok(levels) && levels_view(levels@) == daily_levels(
                sessions_in_month(
                    workout@.sessions,
                    user.id as int,
                    payload.year as int,
                    payload.month as int,
                ),
            )),
    {
        match get_service.get_workout_levels(workout, user.id, payload.year, payload.month) {
            Ok(levels) => Ok(levels),
            Err(error) => Err(store_failure(error)),
        }
    }

    /// The performance series of the acting user for the variation and the
    /// period of the request.
    pub fn performance_data_handler(
        get_service: &GetService,
        workout: &WorkoutDB,
        user: &AuthenticatedUser,
        payload: PerformanceRequest,
    ) -> (r: Result<Vec<WeekBucket>, ApiError>)
        ensures
            match requested_period(payload.start_date@, payload.end_date@) {
                Err(message) => r is Err && r->Err_0.is(BAD_REQUEST as int, message),
                Ok(period) => if workout@.open {
                    r matches Ok(series) && is_series(
                        series@,
                        sets_of_variation(
                            workout@.sets,
                            user.id as int,
                            payload.variation_id as int,
                            period.0,
                            period.1,
                        ),
                        period.0,
                        period.1,
                    )
                } else {
                    r is Err && r->Err_0.is(
                        INTERNAL_SERVER_ERROR as int,
                        error_text(StoreError::Unavailable, Entity::Session),
                    )
                },
            },
    {
        let (start, end) = match read_period(
            payload.start_date.as_str(),
            payload.end_date.as_str(),
        ) {
            Ok(period) => period,
            Err(error) => {
                return Err(error);
            },
        };
        match get_service.get_performance_details(
            workout,
            user.id,
            payload.variation_id,
            start,
            end,
        ) {
            Ok(series) => Ok(series),
            Err(error) => Err(store_failure(error)),
        }
    }

    /// The set volume of the acting user for the muscle groups and the
    /// period of the request.
    pub fn musclegrp_summary_handler(
        get_service: &GetService,
        workout: &WorkoutDB,
        user: &AuthenticatedUser,
        payload: MuscleGroupSummaryRequest,
    ) -> (r: Result<Vec<MuscleGroupVolume>, ApiError>)
        requires
            workout@.wf(),
        ensures
            match requested_period(payload.start_date@, payload.end_date@) {
                Err(message) => r is Err && r->Err_0.is(BAD_REQUEST as int, message),
                Ok(period) => if workout@.open {
                    r matches Ok(summary) && summary@ == group_summary(
                        sets_of_groups(
                            workout@.sets,
                            workout@.variations,
                            user.id as int,
                            payload.muscle_group_ids@,
                            period.0,
                            period.1,
                        ),
                        group_lookup(
                            variation_groups(
                                workout@.variations,
                                payload.muscle_group_ids@,
                                user.id as int,
                            ),
                        ),
                    )
                } else {
                    r is Err && r->Err_0.is(
                        INTERNAL_SERVER_ERROR as int,
                        error_text(StoreError::Unavailable, Entity::Session),
                    )
                },
            },
    {
        let (start, end) = match read_period(
            payload.start_date.as_str(),
            payload.end_date.as_str(),
        ) {
            Ok(period) => period,
            Err(error) => {
                return Err(error);
            },
        };
        match get_service.get_numberof_sets_per_musclegroup(
            workout,
            user.id,
            start,
            end,
            payload.muscle_group_ids,
        ) {
            Ok(summary) => Ok(summary),
            Err(error) => Err(store_failure(error)),
        }
    }
}

} // verus!
