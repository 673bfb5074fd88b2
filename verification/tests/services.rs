use fittrack::api::dashboard::{
    read_period, Dashboard, MonthlyWorkoutRequest, MuscleGroupSummaryRequest, PerformanceRequest,
};
use fittrack::api::error::{ApiError, BAD_REQUEST, INTERNAL_SERVER_ERROR, NOT_FOUND};
use fittrack::api::middleware::AuthenticatedUser;
use fittrack::api::workouts::{
    CardioSet, CreateCardioExerciseRequest, CreateMuscleGroupRequest, CreateVariationRequest,
    HistoryQuery, StrengthSet, UpdateCardioRequest, UpdateSessionRequest, UpdateSetRequest,
    WorkoutSession, Workouts,
};
use fittrack::calendar::{Date, DateTime};
use fittrack::db::model::NewVariation;
use fittrack::db::workouts::{StoreError, WorkoutDB};
use fittrack::services::get_service::GetService;
use fittrack::services::levels::WorkoutLevels;
use fittrack::services::post_service::{PostResponse, PostService};
use fittrack::services::put_service::{PutResponse, PutService};
use fittrack::services::volume::MuscleGroupVolume;

fn day(year: i32, month: u32, day: u32) -> Date {
    Date::from_ymd(year, month, day).unwrap()
}

fn open_store() -> WorkoutDB {
    let mut store = WorkoutDB::new();
    store.init().unwrap();
    store
}

fn user(id: i32) -> AuthenticatedUser {
    AuthenticatedUser { id, username: format!("user{}", id) }
}

fn request(user_id: i32, date: Date, minutes: u32) -> WorkoutSession {
    WorkoutSession {
        user_id,
        title: None,
        notes: None,
        date,
        start_time: DateTime::from_hms(date, 10, 0, 0).unwrap(),
        end_time: DateTime::new(date, 36_000 + minutes * 60, 0).unwrap(),
    }
}

fn strength(user_id: i32, variation_id: i32, weight: f64, reps: i32, date: Date) -> StrengthSet {
    StrengthSet {
        user_id,
        workout_session_id: None,
        muscle_group_id: 1,
        variation_id,
        weight_bits: weight.to_bits(),
        reps,
        performed_on: date,
    }
}

fn post(user_id: i32, id: Option<i32>, success: bool, message: &str) -> PostResponse {
    PostResponse { user_id, id, success, message: String::from(message) }
}

fn put(user_id: i32, id: Option<i32>, success: bool, message: &str) -> PutResponse {
    PutResponse { user_id, id, success, message: String::from(message) }
}

#[test]
fn levels_of_a_month_of_one_user() {
    let mut store = open_store();
    let posts = PostService::new();
    posts.add_workout_session(&mut store, request(1, day(2024, 6, 1), 45));
    posts.add_workout_session(&mut store, request(1, day(2024, 6, 2), 95));
    posts.add_workout_session(&mut store, request(2, day(2024, 6, 3), 95));
    posts.add_workout_session(&mut store, request(1, day(2024, 7, 1), 95));
    let levels = GetService::new().get_workout_levels(&store, 1, 2024, 6).unwrap();
    assert_eq!(levels.len(), 2);
    assert!(levels.contains(&WorkoutLevels { date: day(2024, 6, 1), level: 1 }));
    assert!(levels.contains(&WorkoutLevels { date: day(2024, 6, 2), level: 3 }));
    assert!(GetService::new().get_workout_levels(&store, 1, 2024, 8).unwrap().is_empty());
}

#[test]
fn failure_of_the_store_fails_the_whole_view() {
    let store = WorkoutDB::new();
    let reads = GetService::new();
    let date = day(2024, 6, 1);
    assert_eq!(reads.get_workout_levels(&store, 1, 2024, 6), Err(StoreError::Unavailable));
    assert_eq!(
        reads.get_performance_details(&store, 1, 1, date, date).unwrap_err(),
        StoreError::Unavailable
    );
    assert_eq!(
        reads.get_numberof_sets_per_musclegroup(&store, 1, date, date, vec![1]),
        Err(StoreError::Unavailable)
    );
    assert_eq!(reads.get_muscle_groups(&store, 1), Err(StoreError::Unavailable));
    assert_eq!(reads.get_variations(&store, 1), Err(StoreError::Unavailable));
    assert_eq!(reads.get_cardio_exercises(&store, 1), Err(StoreError::Unavailable));
}

#[test]
fn performance_series_of_one_user_and_variation() {
    let mut store = open_store();
    let posts = PostService::new();
    posts.add_workout_set(&mut store, strength(1, 4, 100.0, 5, day(2024, 6, 3)));
    posts.add_workout_set(&mut store, strength(1, 4, 50.0, 10, day(2024, 6, 5)));
    posts.add_workout_set(&mut store, strength(1, 9, 70.0, 10, day(2024, 6, 5)));
    posts.add_workout_set(&mut store, strength(2, 4, 70.0, 10, day(2024, 6, 5)));
    posts.add_workout_set(&mut store, strength(1, 4, 70.0, 10, day(2024, 6, 20)));
    let series = GetService::new()
        .get_performance_details(&store, 1, 4, day(2024, 6, 3), day(2024, 6, 16))
        .unwrap();
    assert_eq!(series.len(), 2);
    assert_eq!(series[0].week, "6-W23");
    assert_eq!(series[1].week, "6-W24");
    let volume: f64 = series[0]
        .sets
        .iter()
        .map(|set| f64::from_bits(set.weight_bits) * set.reps as f64)
        .sum();
    assert_eq!(volume, 1000.0);
    assert!(series[1].sets.is_empty());
}

#[test]
fn set_volume_of_the_muscle_groups_asked_for() {
    let mut store = open_store();
    let posts = PostService::new();
    let mut variation = |group: i32, user_id: i32| {
        store
            .add_variation(NewVariation {
                muscle_group_id: group,
                name: String::from("v"),
                user_id,
            })
            .unwrap()
            .id
    };
    let chest = variation(1, 0);
    let back = variation(2, 1);
    let legs = variation(3, 0);
    let hidden = variation(1, 2);
    let date = day(2024, 6, 3);
    for variation_id in [back, chest, back, legs, hidden, back] {
        posts.add_workout_set(&mut store, strength(1, variation_id, 10.0, 5, date));
    }
    let summary = GetService::new()
        .get_numberof_sets_per_musclegroup(&store, 1, date, date, vec![1, 2, 4])
        .unwrap();
    assert_eq!(
        summary,
        vec![
            MuscleGroupVolume { muscle_group_id: 2, total_sets: 3 },
            MuscleGroupVolume { muscle_group_id: 1, total_sets: 1 },
        ]
    );
    let none = GetService::new()
        .get_numberof_sets_per_musclegroup(&store, 1, date, date, vec![4])
        .unwrap();
    assert!(none.is_empty());
}

#[test]
fn writes_answer_with_what_they_did() {
    let mut store = open_store();
    let posts = PostService::new();
    let date = day(2024, 6, 1);
    assert_eq!(
        posts.add_workout_session(&mut store, request(7, date, 30)),
        post(7, Some(1), true, "Session Added")
    );
    assert_eq!(
        posts.add_workout_set(&mut store, strength(7, 4, 20.0, 5, date)),
        post(7, None, true, "Set Added")
    );
    let cardio = CardioSet { user_id: 7, workout_session_id: Some(1), cardio_exercise_id: 2, duration: 30 };
    assert_eq!(posts.add_cardio_set(&mut store, cardio, date), post(7, None, true, "Cardio Log Added"));
    assert_eq!(
        posts.add_muscle_group(&mut store, 7, CreateMuscleGroupRequest { name: String::from("Core") }),
        post(7, Some(1), true, "Muscle Group Added")
    );
    assert_eq!(
        posts.add_variation(
            &mut store,
            7,
            CreateVariationRequest { muscle_group_id: 1, name: String::from("Plank") }
        ),
        post(7, Some(1), true, "Variation Added")
    );
    assert_eq!(
        posts.add_cardio_exercise(
            &mut store,
            7,
            CreateCardioExerciseRequest { name: String::from("Rowing") }
        ),
        post(7, Some(1), true, "Cardio Exercise Added")
    );
    let (session, sets, logs) = posts.get_session_details(&store, 7, 1).unwrap();
    assert_eq!(session.title, Some(String::from("Session-2024-06-01")));
    assert!(sets.is_empty());
    assert_eq!(logs.len(), 1);
    assert_eq!(logs[0].performed_on, date);
    assert_eq!(posts.get_history(&store, 7, 5).unwrap(), vec![session]);
    assert_eq!(store.get_all_variations(7).unwrap()[0].name, "Plank");
}

#[test]
fn writes_to_a_closed_store_fail() {
    let mut store = WorkoutDB::new();
    let posts = PostService::new();
    let puts = PutService::new();
    let date = day(2024, 6, 1);
    assert_eq!(
        posts.add_workout_session(&mut store, request(7, date, 30)),
        post(7, None, false, "Pool not initialized")
    );
    assert_eq!(
        posts.add_workout_set(&mut store, strength(7, 4, 20.0, 5, date)),
        post(7, None, false, "Pool not initialized")
    );
    assert_eq!(
        posts.add_muscle_group(&mut store, 7, CreateMuscleGroupRequest { name: String::from("Core") }),
        post(7, None, false, "Pool not initialized")
    );
    assert_eq!(puts.delete_workout_session(&mut store, 7, 1), put(7, None, false, "Pool not initialized"));
    assert_eq!(
        puts.update_cardio_log(&mut store, 7, 1, Some(3)),
        put(7, None, false, "Pool not initialized")
    );
}

#[test]
fn changes_answer_alike_for_foreign_and_missing_rows() {
    let mut store = open_store();
    let posts = PostService::new();
    let puts = PutService::new();
    let date = day(2024, 6, 1);
    posts.add_workout_session(&mut store, request(1, date, 30));
    posts.add_workout_set(&mut store, strength(1, 4, 20.0, 5, date));
    let cardio = CardioSet { user_id: 1, workout_session_id: None, cardio_exercise_id: 2, duration: 30 };
    posts.add_cardio_set(&mut store, cardio, date);

    let title = Some(String::from("Taken"));
    let foreign = puts.update_workout_session(&mut store, 2, 1, title.clone(), None, None, None, None);
    let missing = puts.update_workout_session(&mut store, 2, 9, title.clone(), None, None, None, None);
    assert_eq!(foreign, put(2, None, false, "Session not found or access denied"));
    assert_eq!(foreign, missing);
    assert_eq!(puts.delete_workout_session(&mut store, 2, 1), puts.delete_workout_session(&mut store, 2, 9));
    assert_eq!(
        puts.update_workout_set(&mut store, 2, 1, None, Some(1)),
        put(2, None, false, "Set not found or access denied")
    );
    assert_eq!(
        puts.delete_workout_set(&mut store, 2, 1),
        put(2, None, false, "Set not found or access denied")
    );
    assert_eq!(
        puts.update_cardio_log(&mut store, 2, 1, Some(1)),
        put(2, None, false, "Cardio log not found or access denied")
    );
    assert_eq!(
        puts.delete_cardio_log(&mut store, 2, 1),
        put(2, None, false, "Cardio log not found or access denied")
    );
    assert_eq!(
        posts.update_workout_session(&mut store, 2, 1, title.clone(), None, None),
        post(2, None, false, "Session not found or access denied")
    );
    assert_eq!(
        posts.delete_workout_session(&mut store, 2, 1),
        post(2, None, false, "Session not found or access denied")
    );

    assert_eq!(
        puts.update_workout_session(&mut store, 1, 1, title, None, None, None, None),
        put(1, Some(1), true, "Session Updated")
    );
    assert_eq!(puts.update_workout_set(&mut store, 1, 1, None, Some(1)), put(1, Some(1), true, "Set Updated"));
    assert_eq!(puts.update_cardio_log(&mut store, 1, 1, Some(1)), put(1, Some(1), true, "Cardio Log Updated"));
    assert_eq!(posts.update_workout_set(&mut store, 1, 1, Some(3), None), post(1, Some(1), true, "Set Updated"));
    assert_eq!(posts.update_cardio_log(&mut store, 1, 1, None), post(1, Some(1), true, "Cardio Log Updated"));
    let (session, sets, _) = store.get_session_details(1, 1).unwrap();
    assert_eq!(session.title, Some(String::from("Taken")));
    assert!(sets.is_empty());
    assert_eq!(store.get_performance_details(1, 4, date, date).unwrap()[0].reps, 1);
    assert_eq!(store.get_performance_details(1, 4, date, date).unwrap()[0].weight_bits, 3);
    assert_eq!(puts.delete_workout_set(&mut store, 1, 1), put(1, Some(1), true, "Set Deleted"));
    assert_eq!(puts.delete_cardio_log(&mut store, 1, 1), put(1, Some(1), true, "Cardio Log Deleted"));
    assert_eq!(puts.delete_workout_session(&mut store, 1, 1), put(1, Some(1), true, "Session Deleted"));
    assert_eq!(
        posts.delete_workout_set(&mut store, 1, 1),
        post(1, None, false, "Set not found or access denied")
    );
    assert_eq!(
        posts.delete_cardio_log(&mut store, 1, 1),
        post(1, None, false, "Cardio log not found or access denied")
    );
}

#[test]
fn handlers_act_for_the_user_of_the_token() {
    let mut store = open_store();
    let posts = PostService::new();
    let puts = PutService::new();
    let date = day(2024, 6, 1);
    let alice = user(5);
    let answer = Workouts::workout_session_handler(&posts, &mut store, request(99, date, 60), &alice);
    assert_eq!(answer, post(5, Some(1), true, "Session Added"));
    let answer =
        Workouts::workout_set_handler(&posts, &mut store, strength(99, 4, 20.0, 5, date), &alice);
    assert_eq!(answer, post(5, None, true, "Set Added"));
    let cardio = CardioSet { user_id: 99, workout_session_id: Some(1), cardio_exercise_id: 2, duration: 30 };
    let answer = Workouts::cardio_log_handler(&posts, &mut store, cardio, &alice, date);
    assert_eq!(answer, post(5, None, true, "Cardio Log Added"));
    assert_eq!(store.get_session_details(99, 1), Err(StoreError::NotFoundOrForbidden));
    let details = Workouts::session_details_handler(&posts, &store, &alice, 1).unwrap();
    assert_eq!(details.session.user_id, 5);
    assert_eq!(details.cardio_logs.len(), 1);
    assert_eq!(details.cardio_logs[0].user_id, 5);
    assert_eq!(store.get_performance_details(5, 4, date, date).unwrap().len(), 1);

    let bob = user(6);
    let change = UpdateSessionRequest {
        title: Some(String::from("Bob's")),
        date: None,
        start_time: None,
        end_time: None,
        notes: None,
    };
    assert_eq!(
        Workouts::update_session_handler(&puts, &mut store, &bob, 1, change.clone()),
        put(6, None, false, "Session not found or access denied")
    );
    assert_eq!(
        Workouts::update_session_handler(&puts, &mut store, &alice, 1, change),
        put(5, Some(1), true, "Session Updated")
    );
    let set_change = UpdateSetRequest { weight_bits: None, reps: Some(8) };
    assert_eq!(
        Workouts::update_set_handler(&puts, &mut store, &bob, 1, set_change),
        put(6, None, false, "Set not found or access denied")
    );
    assert_eq!(
        Workouts::update_set_handler(&puts, &mut store, &alice, 1, set_change),
        put(5, Some(1), true, "Set Updated")
    );
    let log_change = UpdateCardioRequest { duration: Some(8) };
    assert_eq!(
        Workouts::update_cardio_handler(&puts, &mut store, &alice, 1, log_change),
        put(5, Some(1), true, "Cardio Log Updated")
    );
    assert_eq!(
        Workouts::delete_cardio_handler(&puts, &mut store, &bob, 1),
        put(6, None, false, "Cardio log not found or access denied")
    );
    assert_eq!(
        Workouts::delete_cardio_handler(&puts, &mut store, &alice, 1),
        put(5, Some(1), true, "Cardio Log Deleted")
    );
    assert_eq!(
        Workouts::delete_set_handler(&puts, &mut store, &alice, 1),
        put(5, Some(1), true, "Set Deleted")
    );
    assert_eq!(
        Workouts::delete_session_handler(&puts, &mut store, &bob, 1),
        put(6, None, false, "Session not found or access denied")
    );
    assert_eq!(
        Workouts::delete_session_handler(&puts, &mut store, &alice, 1),
        put(5, Some(1), true, "Session Deleted")
    );
}

#[test]
fn read_handlers_tell_failures_with_a_status() {
    let mut store = WorkoutDB::new();
    let posts = PostService::new();
    let reads = GetService::new();
    let alice = user(5);
    let all = HistoryQuery { limit: None, start_date: None, end_date: None };
    let failure = |status: u16| ApiError { status, message: String::from("Error: Pool not initialized") };
    assert_eq!(Workouts::history_handler(&posts, &store, &alice, all), Err(failure(INTERNAL_SERVER_ERROR)));
    assert_eq!(Workouts::session_details_handler(&posts, &store, &alice, 1), Err(failure(NOT_FOUND)));
    assert_eq!(Workouts::get_muscle_groups_handler(&reads, &store, &alice), Err(failure(INTERNAL_SERVER_ERROR)));
    assert_eq!(Workouts::get_variations_handler(&reads, &store, &alice), Err(failure(INTERNAL_SERVER_ERROR)));
    assert_eq!(Workouts::get_cardio_exercises_handler(&reads, &store, &alice), Err(failure(INTERNAL_SERVER_ERROR)));
    store.init().unwrap();
    assert_eq!(
        Workouts::session_details_handler(&posts, &store, &alice, 1),
        Err(ApiError {
            status: NOT_FOUND,
            message: String::from("Error: Session not found or access denied"),
        })
    );
    for n in 0..25 {
        let date = Date::from_days(day(2024, 1, 1).days() + n).unwrap();
        Workouts::workout_session_handler(&posts, &mut store, request(0, date, 30), &alice);
    }
    assert_eq!(Workouts::history_handler(&posts, &store, &alice, all).unwrap().len(), 20);
    let three = HistoryQuery { limit: Some(3), start_date: None, end_date: None };
    let rows = Workouts::history_handler(&posts, &store, &alice, three).unwrap();
    let ids: Vec<i32> = rows.iter().map(|row| row.id).collect();
    assert_eq!(ids, vec![25, 24, 23]);
    let negative = HistoryQuery { limit: Some(-1), start_date: None, end_date: None };
    assert_eq!(
        Workouts::history_handler(&posts, &store, &alice, negative),
        Err(failure(INTERNAL_SERVER_ERROR))
    );
}

#[test]
fn catalog_handlers_create_for_the_user_of_the_token() {
    let mut store = open_store();
    let posts = PostService::new();
    let reads = GetService::new();
    let alice = user(5);
    let bob = user(6);
    let answer = Workouts::create_muscle_group_handler(
        &posts,
        &mut store,
        &alice,
        CreateMuscleGroupRequest { name: String::from("Core") },
    );
    assert_eq!(answer, post(5, Some(1), true, "Muscle Group Added"));
    let answer = Workouts::create_variation_handler(
        &posts,
        &mut store,
        &alice,
        CreateVariationRequest { muscle_group_id: 1, name: String::from("Plank") },
    );
    assert_eq!(answer, post(5, Some(1), true, "Variation Added"));
    let answer = Workouts::create_cardio_exercise_handler(
        &posts,
        &mut store,
        &alice,
        CreateCardioExerciseRequest { name: String::from("Rowing") },
    );
    assert_eq!(answer, post(5, Some(1), true, "Cardio Exercise Added"));
    assert_eq!(Workouts::get_muscle_groups_handler(&reads, &store, &alice).unwrap().len(), 1);
    assert_eq!(Workouts::get_variations_handler(&reads, &store, &alice).unwrap().len(), 1);
    assert_eq!(Workouts::get_cardio_exercises_handler(&reads, &store, &alice).unwrap().len(), 1);
    assert!(Workouts::get_muscle_groups_handler(&reads, &store, &bob).unwrap().is_empty());
    assert!(Workouts::get_variations_handler(&reads, &store, &bob).unwrap().is_empty());
    assert!(Workouts::get_cardio_exercises_handler(&reads, &store, &bob).unwrap().is_empty());
}

#[test]
fn dashboard_reads_dates_and_refuses_bad_ones() {
    assert_eq!(read_period("2024-06-03", "2024-06-09"), Ok((day(2024, 6, 3), day(2024, 6, 9))));
    assert_eq!(
        read_period("03.06.2024", "2024-06-09"),
        Err(ApiError {
            status: BAD_REQUEST,
            message: String::from("Invalid start_date format: input contains invalid characters"),
        })
    );
    assert_eq!(
        read_period("2024-06-03", "2024-06"),
        Err(ApiError {
            status: BAD_REQUEST,
            message: String::from("Invalid end_date format: premature end of input"),
        })
    );
    assert_eq!(
        read_period("2024-06-31", "nonsense"),
        Err(ApiError {
            status: BAD_REQUEST,
            message: String::from("Invalid start_date format: input is out of range"),
        })
    );
}

#[test]
fn dashboard_handlers_answer_for_the_user_of_the_token() {
    let mut store = open_store();
    let posts = PostService::new();
    let reads = GetService::new();
    let alice = user(5);
    let variation = store
        .add_variation(NewVariation { muscle_group_id: 1, name: String::from("v"), user_id: 0 })
        .unwrap()
        .id;
    Workouts::workout_session_handler(&posts, &mut store, request(0, day(2024, 6, 1), 45), &alice);
    Workouts::workout_session_handler(&posts, &mut store, request(0, day(2024, 6, 2), 95), &alice);
    Workouts::workout_set_handler(
        &posts,
        &mut store,
        strength(0, variation, 100.0, 5, day(2024, 6, 3)),
        &alice,
    );
    let levels = Dashboard::monthly_workout_levels_handler(
        &reads,
        &store,
        &alice,
        MonthlyWorkoutRequest { year: 2024, month: 6 },
    )
    .unwrap();
    assert_eq!(levels.len(), 2);
    assert!(levels.contains(&WorkoutLevels { date: day(2024, 6, 1), level: 1 }));
    assert!(levels.contains(&WorkoutLevels { date: day(2024, 6, 2), level: 3 }));
    let series = Dashboard::performance_data_handler(
        &reads,
        &store,
        &alice,
        PerformanceRequest {
            variation_id: variation,
            start_date: String::from("2024-06-03"),
            end_date: String::from("2024-06-04"),
        },
    )
    .unwrap();
    assert_eq!(series.len(), 1);
    assert_eq!(series[0].week, "6-W23");
    assert_eq!(series[0].sets.len(), 1);
    let summary = Dashboard::musclegrp_summary_handler(
        &reads,
        &store,
        &alice,
        MuscleGroupSummaryRequest {
            muscle_group_ids: vec![1],
            start_date: String::from("2024-06-01"),
            end_date: String::from("2024-06-30"),
        },
    )
    .unwrap();
    assert_eq!(summary, vec![MuscleGroupVolume { muscle_group_id: 1, total_sets: 1 }]);
    let bad = Dashboard::performance_data_handler(
        &reads,
        &store,
        &alice,
        PerformanceRequest {
            variation_id: variation,
            start_date: String::from("2024-06-03"),
            end_date: String::from("2024-06-04 "),
        },
    );
    assert_eq!(
        bad.unwrap_err(),
        ApiError { status: BAD_REQUEST, message: String::from("Invalid end_date format: trailing input") }
    );
    let closed = WorkoutDB::new();
    let failed = Dashboard::monthly_workout_levels_handler(
        &reads,
        &closed,
        &alice,
        MonthlyWorkoutRequest { year: 2024, month: 6 },
    );
    assert_eq!(
        failed,
        Err(ApiError { status: INTERNAL_SERVER_ERROR, message: String::from("Pool not initialized") })
    );
    let failed = Dashboard::musclegrp_summary_handler(
        &reads,
        &closed,
        &alice,
        MuscleGroupSummaryRequest {
            muscle_group_ids: vec![1],
            start_date: String::from("2024-06-01"),
            end_date: String::from("2024-06-30"),
        },
    );
    assert_eq!(
        failed,
        Err(ApiError { status: INTERNAL_SERVER_ERROR, message: String::from("Pool not initialized") })
    );
}

#[test]
fn answers_are_made_of_their_parts() {
    assert_eq!(PostResponse::done(3, Some(4), "Set Added"), post(3, Some(4), true, "Set Added"));
    assert_eq!(
        PostResponse::failed(3, StoreError::Unavailable, fittrack::db::workouts::Entity::Session),
        post(3, None, false, "Pool not initialized")
    );
    assert_eq!(PutResponse::done(3, None, "Set Deleted"), put(3, None, true, "Set Deleted"));
    assert_eq!(
        PutResponse::failed(
            3,
            StoreError::NotFoundOrForbidden,
            fittrack::db::workouts::Entity::CardioLog
        ),
        put(3, None, false, "Cardio log not found or access denied")
    );
}

#[test]
fn history_is_twenty_sessions_long_unless_asked_otherwise() {
    let all = HistoryQuery { limit: None, start_date: None, end_date: None };
    assert_eq!(all.limit_or_default(), 20);
    let five = HistoryQuery { limit: Some(5), start_date: None, end_date: None };
    assert_eq!(five.limit_or_default(), 5);
}

#[test]
fn month_without_logged_time_has_no_levels() {
    let mut store = open_store();
    let posts = PostService::new();
    posts.add_workout_session(&mut store, request(1, day(2024, 6, 10), 0));
    assert_eq!(GetService::new().get_workout_levels(&store, 1, 2024, 6), Ok(Vec::new()));
    posts.add_workout_session(&mut store, request(1, day(2024, 6, 11), 30));
    assert_eq!(
        GetService::new().get_workout_levels(&store, 1, 2024, 6),
        Ok(vec![WorkoutLevels { date: day(2024, 6, 11), level: 1 }])
    );
    let answer = Workouts::workout_session_handler(
        &posts,
        &mut WorkoutDB::new(),
        request(0, day(2024, 6, 1), 30),
        &user(9),
    );
    assert_eq!(answer, post(9, None, false, "Pool not initialized"));
}
