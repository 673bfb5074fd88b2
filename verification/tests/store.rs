use fittrack::calendar::{Date, DateTime};
use fittrack::db::model::{
    NewCardioExercise, NewCardioLog, NewMuscleGroup, NewVariation, NewWorkoutSession,
    NewWorkoutSet, Owner, UpdateCardioLog, UpdateWorkoutSession, UpdateWorkoutSet, SYSTEM_USER,
};
use fittrack::db::workouts::{
    affected_outcome, checked_limit, contains_id, with_title, Entity, StoreError, WorkoutDB,
};

fn day(year: i32, month: u32, day: u32) -> Date {
    Date::from_ymd(year, month, day).unwrap()
}

fn at(date: Date, hour: u32, minute: u32) -> DateTime {
    DateTime::from_hms(date, hour, minute, 0).unwrap()
}

fn open_store() -> WorkoutDB {
    let mut store = WorkoutDB::new();
    store.init().unwrap();
    store
}

fn new_session(user_id: i32, date: Date, title: Option<&str>) -> NewWorkoutSession {
    NewWorkoutSession {
        user_id,
        date,
        title: title.map(String::from),
        notes: None,
        start_time: at(date, 10, 0),
        end_time: at(date, 11, 0),
    }
}

fn new_set(user_id: i32, variation_id: i32, performed_on: Date) -> NewWorkoutSet {
    NewWorkoutSet {
        user_id,
        workout_session_id: None,
        variation_id,
        weight_bits: 7,
        reps: 10,
        performed_on,
    }
}

fn no_change() -> UpdateWorkoutSession {
    UpdateWorkoutSession { title: None, date: None, start_time: None, end_time: None, notes: None }
}

#[test]
fn session_without_title_is_named_after_its_date() {
    let mut store = open_store();
    let row = store.add_workout_session(new_session(1, day(2024, 6, 1), None)).unwrap();
    assert_eq!(row.title, Some(String::from("Session-2024-06-01")));
    let (stored, _, _) = store.get_session_details(1, row.id).unwrap();
    assert_eq!(stored.title, Some(String::from("Session-2024-06-01")));
    assert_eq!(stored, row);
    let row = store.add_workout_session(new_session(1, day(987, 12, 31), None)).unwrap();
    assert_eq!(row.title, Some(String::from("Session-0987-12-31")));
}

#[test]
fn session_with_title_keeps_it() {
    let mut store = open_store();
    let row = store.add_workout_session(new_session(1, day(2024, 6, 1), Some("Legs"))).unwrap();
    assert_eq!(row.title, Some(String::from("Legs")));
    let row = store.add_workout_session(new_session(1, day(2024, 6, 1), Some(""))).unwrap();
    assert_eq!(row.title, Some(String::new()));
}

#[test]
fn ids_count_up_and_are_not_used_again() {
    let mut store = open_store();
    let first = store.add_workout_session(new_session(1, day(2024, 6, 1), None)).unwrap();
    let second = store.add_workout_session(new_session(2, day(2024, 6, 1), None)).unwrap();
    assert_eq!(first.id, 1);
    assert_eq!(second.id, 2);
    store.delete_workout_session(2, 2).unwrap();
    let third = store.add_workout_session(new_session(2, day(2024, 6, 2), None)).unwrap();
    assert_eq!(third.id, 3);
    assert_eq!(third.user_id, 2);
    assert_eq!(third.date, day(2024, 6, 2));
}

#[test]
fn store_that_is_not_open_serves_nothing() {
    let mut store = WorkoutDB::new();
    let date = day(2024, 6, 1);
    assert_eq!(
        store.add_workout_session(new_session(1, date, None)),
        Err(StoreError::Unavailable)
    );
    assert_eq!(store.add_workout_set(new_set(1, 1, date)), Err(StoreError::Unavailable));
    assert_eq!(store.update_workout_session(1, 1, no_change()), Err(StoreError::Unavailable));
    assert_eq!(store.delete_workout_session(1, 1), Err(StoreError::Unavailable));
    assert_eq!(store.get_history(1, 10), Err(StoreError::Unavailable));
    assert_eq!(store.get_monthly_workout_details(1, 2024, 6), Err(StoreError::Unavailable));
    assert_eq!(store.get_performance_details(1, 1, date, date), Err(StoreError::Unavailable));
    assert_eq!(store.get_sets_for_musclegroups(1, &vec![1], date, date), Err(StoreError::Unavailable));
    assert_eq!(store.get_varaition_ids(1, &vec![1]), Err(StoreError::Unavailable));
    assert_eq!(store.get_all_muscle_groups(1), Err(StoreError::Unavailable));
    assert_eq!(store.get_session_details(1, 1), Err(StoreError::Unavailable));
    store.init().unwrap();
    assert!(store.add_workout_session(new_session(1, date, None)).is_ok());
}

#[test]
fn update_changes_only_the_given_fields() {
    let mut store = open_store();
    let date = day(2024, 6, 1);
    let row = store.add_workout_session(new_session(1, date, Some("Legs"))).unwrap();
    let change = UpdateWorkoutSession {
        title: None,
        date: None,
        start_time: None,
        end_time: Some(at(date, 12, 30)),
        notes: Some(String::from("heavy")),
    };
    let changed = store.update_workout_session(1, row.id, change).unwrap();
    assert_eq!(changed.id, row.id);
    assert_eq!(changed.user_id, 1);
    assert_eq!(changed.title, Some(String::from("Legs")));
    assert_eq!(changed.date, date);
    assert_eq!(changed.start_time, at(date, 10, 0));
    assert_eq!(changed.end_time, at(date, 12, 30));
    assert_eq!(changed.notes, Some(String::from("heavy")));
    let (stored, _, _) = store.get_session_details(1, row.id).unwrap();
    assert_eq!(stored, changed);
    let same = store.update_workout_session(1, row.id, no_change()).unwrap();
    assert_eq!(same, changed);
}

#[test]
fn session_of_another_user_is_like_no_session() {
    let mut store = open_store();
    let row = store.add_workout_session(new_session(1, day(2024, 6, 1), Some("Mine"))).unwrap();
    let change = UpdateWorkoutSession {
        title: Some(String::from("Taken")),
        date: None,
        start_time: None,
        end_time: None,
        notes: None,
    };
    let foreign = store.update_workout_session(2, row.id, change.clone());
    let missing = store.update_workout_session(2, 999, change);
    assert_eq!(foreign, Err(StoreError::NotFoundOrForbidden));
    assert_eq!(foreign, missing);
    let foreign = store.delete_workout_session(2, row.id);
    let missing = store.delete_workout_session(2, 999);
    assert_eq!(foreign, Err(StoreError::NotFoundOrForbidden));
    assert_eq!(foreign, missing);
    assert_eq!(store.get_session_details(2, row.id), Err(StoreError::NotFoundOrForbidden));
    assert_eq!(store.get_session_details(2, 999), Err(StoreError::NotFoundOrForbidden));
    let (stored, _, _) = store.get_session_details(1, row.id).unwrap();
    assert_eq!(stored, row);
    assert_eq!(store.delete_workout_session(1, row.id), Ok(()));
    assert_eq!(store.delete_workout_session(1, row.id), Err(StoreError::NotFoundOrForbidden));
}

#[test]
fn error_words_do_not_tell_foreign_from_missing() {
    assert_eq!(
        StoreError::NotFoundOrForbidden.message(Entity::Session),
        "Session not found or access denied"
    );
    assert_eq!(
        StoreError::NotFoundOrForbidden.message(Entity::StrengthSet),
        "Set not found or access denied"
    );
    assert_eq!(
        StoreError::NotFoundOrForbidden.message(Entity::CardioLog),
        "Cardio log not found or access denied"
    );
    assert_eq!(
        StoreError::NotFoundOrForbidden.message(Entity::Catalog),
        "Catalog entry not found or access denied"
    );
    assert_eq!(StoreError::Unavailable.message(Entity::Session), "Pool not initialized");
}

#[test]
fn sets_are_stored_changed_and_deleted_for_their_owner() {
    let mut store = open_store();
    let date = day(2024, 6, 1);
    store.add_workout_set(new_set(1, 5, date)).unwrap();
    store.add_workout_set(new_set(2, 5, date)).unwrap();
    let mine = store.get_performance_details(1, 5, date, date).unwrap();
    assert_eq!(mine.len(), 1);
    assert_eq!(mine[0].id, 1);
    assert_eq!(mine[0].user_id, 1);
    assert_eq!(mine[0].weight_bits, 7);
    assert_eq!(mine[0].reps, 10);
    let change = UpdateWorkoutSet { weight_bits: Some(9), reps: None };
    assert_eq!(store.update_workout_set(1, 2, change), Err(StoreError::NotFoundOrForbidden));
    let changed = store.update_workout_set(2, 2, change).unwrap();
    assert_eq!(changed.weight_bits, 9);
    assert_eq!(changed.reps, 10);
    let change = UpdateWorkoutSet { weight_bits: None, reps: Some(3) };
    let changed = store.update_workout_set(2, 2, change).unwrap();
    assert_eq!(changed.weight_bits, 9);
    assert_eq!(changed.reps, 3);
    assert_eq!(store.get_performance_details(2, 5, date, date).unwrap(), vec![changed]);
    assert_eq!(store.get_performance_details(1, 5, date, date).unwrap(), mine);
    assert_eq!(store.delete_workout_set(1, 2), Err(StoreError::NotFoundOrForbidden));
    assert_eq!(store.delete_workout_set(2, 2), Ok(()));
    assert!(store.get_performance_details(2, 5, date, date).unwrap().is_empty());
}

#[test]
fn cardio_logs_are_stored_changed_and_deleted_for_their_owner() {
    let mut store = open_store();
    let date = day(2024, 6, 1);
    let session = store.add_workout_session(new_session(1, date, None)).unwrap();
    let log = NewCardioLog {
        user_id: 1,
        workout_session_id: Some(session.id),
        cardio_exercise_id: 3,
        duration_minutes: 25,
        performed_on: date,
    };
    store.add_workout_cardio(log).unwrap();
    let (_, _, logs) = store.get_session_details(1, session.id).unwrap();
    assert_eq!(logs.len(), 1);
    assert_eq!(logs[0].id, 1);
    assert_eq!(logs[0].duration_minutes, 25);
    assert_eq!(logs[0].cardio_exercise_id, 3);
    let change = UpdateCardioLog { duration_minutes: Some(40) };
    assert_eq!(store.update_cardio_log(2, 1, change), Err(StoreError::NotFoundOrForbidden));
    assert_eq!(store.update_cardio_log(1, 1, change).unwrap().duration_minutes, 40);
    let keep = UpdateCardioLog { duration_minutes: None };
    assert_eq!(store.update_cardio_log(1, 1, keep).unwrap().duration_minutes, 40);
    assert_eq!(store.delete_cardio_log(2, 1), Err(StoreError::NotFoundOrForbidden));
    assert_eq!(store.delete_cardio_log(1, 1), Ok(()));
    let (_, _, logs) = store.get_session_details(1, session.id).unwrap();
    assert!(logs.is_empty());
}

#[test]
fn session_details_hold_the_rows_of_the_session() {
    let mut store = open_store();
    let date = day(2024, 6, 1);
    let first = store.add_workout_session(new_session(1, date, None)).unwrap();
    let second = store.add_workout_session(new_session(1, date, None)).unwrap();
    let mut set = new_set(1, 5, date);
    set.workout_session_id = Some(first.id);
    store.add_workout_set(set).unwrap();
    set.workout_session_id = Some(second.id);
    store.add_workout_set(set).unwrap();
    set.workout_session_id = None;
    store.add_workout_set(set).unwrap();
    set.workout_session_id = Some(first.id);
    set.user_id = 2;
    store.add_workout_set(set).unwrap();
    let (session, sets, logs) = store.get_session_details(1, first.id).unwrap();
    assert_eq!(session, first);
    assert_eq!(sets.len(), 1);
    assert_eq!(sets[0].id, 1);
    assert!(logs.is_empty());
}

#[test]
fn month_holds_the_sessions_of_the_user_in_it() {
    let mut store = open_store();
    let a = store.add_workout_session(new_session(1, day(2024, 6, 1), None)).unwrap();
    store.add_workout_session(new_session(1, day(2024, 5, 31), None)).unwrap();
    store.add_workout_session(new_session(2, day(2024, 6, 2), None)).unwrap();
    let b = store.add_workout_session(new_session(1, day(2024, 6, 30), None)).unwrap();
    store.add_workout_session(new_session(1, day(2023, 6, 15), None)).unwrap();
    assert_eq!(store.get_monthly_workout_details(1, 2024, 6).unwrap(), vec![a, b]);
    assert!(store.get_monthly_workout_details(1, 2024, 13).unwrap().is_empty());
    assert!(store.get_monthly_workout_details(1, 2024, -6).unwrap().is_empty());
    assert!(store.get_monthly_workout_details(3, 2024, 6).unwrap().is_empty());
}

#[test]
fn performance_details_hold_the_sets_of_the_period() {
    let mut store = open_store();
    store.add_workout_set(new_set(1, 5, day(2024, 6, 2))).unwrap();
    store.add_workout_set(new_set(1, 5, day(2024, 6, 3))).unwrap();
    store.add_workout_set(new_set(1, 6, day(2024, 6, 4))).unwrap();
    store.add_workout_set(new_set(1, 5, day(2024, 6, 9))).unwrap();
    store.add_workout_set(new_set(1, 5, day(2024, 6, 10))).unwrap();
    let rows = store.get_performance_details(1, 5, day(2024, 6, 3), day(2024, 6, 9)).unwrap();
    let ids: Vec<i32> = rows.iter().map(|row| row.id).collect();
    assert_eq!(ids, vec![2, 4]);
    assert!(store.get_performance_details(1, 5, day(2024, 6, 9), day(2024, 6, 3)).unwrap().is_empty());
}

#[test]
fn history_is_ordered_and_limited() {
    let mut store = open_store();
    let date = day(2024, 6, 1);
    let mut at_hour = |user_id: i32, hour: u32| {
        let mut session = new_session(user_id, date, None);
        session.start_time = at(date, hour, 0);
        store.add_workout_session(session).unwrap().id
    };
    let nine = at_hour(1, 9);
    let noon = at_hour(1, 12);
    at_hour(2, 13);
    let seven = at_hour(1, 7);
    let noon_again = at_hour(1, 12);
    let ids = |rows: Vec<fittrack::db::model::WorkoutSession>| -> Vec<i32> {
        rows.iter().map(|row| row.id).collect()
    };
    assert_eq!(ids(store.get_history(1, 10).unwrap()), vec![noon, noon_again, nine, seven]);
    assert_eq!(ids(store.get_history(1, 4).unwrap()), vec![noon, noon_again, nine, seven]);
    assert_eq!(ids(store.get_history(1, 2).unwrap()), vec![noon, noon_again]);
    assert_eq!(ids(store.get_history(1, 0).unwrap()), Vec::<i32>::new());
    assert_eq!(store.get_history(1, -1), Err(StoreError::Unavailable));
    assert_eq!(ids(store.get_history(3, 10).unwrap()), Vec::<i32>::new());
}

#[test]
fn catalog_rows_are_seen_by_their_owner_and_shared_rows_by_all() {
    let mut store = open_store();
    let shared = store
        .add_muscle_group(NewMuscleGroup { name: String::from("Chest"), user_id: SYSTEM_USER })
        .unwrap();
    let mine =
        store.add_muscle_group(NewMuscleGroup { name: String::from("Grip"), user_id: 1 }).unwrap();
    let theirs =
        store.add_muscle_group(NewMuscleGroup { name: String::from("Neck"), user_id: 2 }).unwrap();
    assert_eq!(shared.owner, Owner::Global);
    assert_eq!(mine.owner, Owner::User(1));
    assert_eq!(mine.name, "Grip");
    assert_eq!((shared.id, mine.id, theirs.id), (1, 2, 3));
    assert_eq!(store.get_all_muscle_groups(1).unwrap(), vec![shared.clone(), mine]);
    assert_eq!(store.get_all_muscle_groups(2).unwrap(), vec![shared.clone(), theirs]);
    assert_eq!(store.get_all_muscle_groups(3).unwrap(), vec![shared]);
    let exercise = store
        .add_cardio_exercise(NewCardioExercise { name: String::from("Rowing"), user_id: 1 })
        .unwrap();
    assert_eq!(store.get_all_cardio_exercises(1).unwrap(), vec![exercise]);
    assert!(store.get_all_cardio_exercises(2).unwrap().is_empty());
    let variation = store
        .add_variation(NewVariation { muscle_group_id: 1, name: String::from("Bench"), user_id: 0 })
        .unwrap();
    assert_eq!(variation.muscle_group_id, 1);
    assert_eq!(store.get_all_variations(7).unwrap(), vec![variation]);
}

#[test]
fn owner_shows_own_and_shared_rows() {
    assert_eq!(Owner::from_user_id(0), Owner::Global);
    assert_eq!(Owner::from_user_id(5), Owner::User(5));
    assert_eq!(Owner::Global.user_id(), 0);
    assert_eq!(Owner::User(5).user_id(), 5);
    assert!(Owner::Global.visible_to(3));
    assert!(Owner::User(3).visible_to(3));
    assert!(!Owner::User(4).visible_to(3));
    assert!(Owner::User(0).visible_to(3));
}

#[test]
fn sets_for_muscle_groups_follow_the_variations_that_the_user_sees() {
    let mut store = open_store();
    let date = day(2024, 6, 1);
    let add = |store: &mut WorkoutDB, group: i32, user_id: i32| {
        store
            .add_variation(NewVariation {
                muscle_group_id: group,
                name: String::from("v"),
                user_id,
            })
            .unwrap()
            .id
    };
    let shared = add(&mut store, 1, 0);
    let mine = add(&mut store, 2, 1);
    let theirs = add(&mut store, 2, 2);
    let other = add(&mut store, 3, 0);
    for variation in [shared, mine, theirs, other, 99] {
        store.add_workout_set(new_set(1, variation, date)).unwrap();
    }
    store.add_workout_set(new_set(2, shared, date)).unwrap();
    store.add_workout_set(new_set(1, shared, day(2024, 7, 1))).unwrap();
    let lookup = store.get_varaition_ids(1, &vec![1, 2]).unwrap();
    assert_eq!(lookup.len(), 2);
    assert_eq!(lookup.get(&shared), Some(&1));
    assert_eq!(lookup.get(&mine), Some(&2));
    let rows = store.get_sets_for_musclegroups(1, &vec![1, 2], date, day(2024, 6, 30)).unwrap();
    let variations: Vec<i32> = rows.iter().map(|row| row.variation_id).collect();
    assert_eq!(variations, vec![shared, mine]);
    assert!(store.get_sets_for_musclegroups(1, &Vec::new(), date, date).unwrap().is_empty());
}

#[test]
fn ids_are_found_in_a_list() {
    assert!(contains_id(&vec![3, 1, 2], 1));
    assert!(!contains_id(&vec![3, 1, 2], 4));
    assert!(!contains_id(&Vec::new(), 0));
}

#[test]
fn title_is_given_before_a_session_is_stored() {
    let named = with_title(new_session(1, day(2024, 6, 1), Some("Push")));
    assert_eq!(named.title, Some(String::from("Push")));
    let unnamed = with_title(new_session(1, day(2024, 12, 31), None));
    assert_eq!(unnamed.title, Some(String::from("Session-2024-12-31")));
    assert_eq!(unnamed.user_id, 1);
    assert_eq!(unnamed.date, day(2024, 12, 31));
    assert_eq!(unnamed.notes, None);
}

#[test]
fn change_that_reaches_no_row_found_none() {
    assert_eq!(affected_outcome(0), Err(StoreError::NotFoundOrForbidden));
    assert_eq!(affected_outcome(1), Ok(()));
    assert_eq!(affected_outcome(7), Ok(()));
}

#[test]
fn negative_limit_is_refused() {
    assert_eq!(checked_limit(-1), Err(StoreError::Unavailable));
    assert_eq!(checked_limit(i64::MIN), Err(StoreError::Unavailable));
    assert_eq!(checked_limit(0), Ok(0));
    assert_eq!(checked_limit(20), Ok(20));
}

#[test]
fn empty_changes_are_told_apart() {
    assert!(no_change().is_empty());
    let mut change = no_change();
    change.notes = Some(String::new());
    assert!(!change.is_empty());
    assert!(UpdateWorkoutSet { weight_bits: None, reps: None }.is_empty());
    assert!(!UpdateWorkoutSet { weight_bits: Some(0), reps: None }.is_empty());
    assert!(UpdateCardioLog { duration_minutes: None }.is_empty());
    assert!(!UpdateCardioLog { duration_minutes: Some(0) }.is_empty());
}
