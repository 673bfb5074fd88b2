//! The workout store: sessions, strength sets, cardio logs and the exercise
//! catalog, kept in memory.
//!
//! Every row of a user's data carries the id of its owner, and every read,
//! update and delete names the acting user: a row of another user is treated
//! exactly as a row that does not exist. That filter is the only
//! authorization there is. A row of the catalog is seen by its owner and,
//! where it is shared, by everyone.
//!
//! Ids are given out by the store, one counter for each table, counting up;
//! none is used twice.

use crate::calendar::{civil_month, civil_year, date_text, later_than, Date};
use crate::db::model::{
    clone_text, CardioExercise, CardioLog, MuscleGroup, NewCardioExercise, NewCardioLog,
    NewMuscleGroup, NewVariation, NewWorkoutSession, NewWorkoutSet, Owner, UpdateCardioLog,
    UpdateWorkoutSession, UpdateWorkoutSet, Variation, WorkoutSession, WorkoutSet,
};
use crate::table::{
    first, ids_in_order, lemma_change_keeps_ids, lemma_filter_keeps_ids, lemma_push_keeps_ids,
    lemma_split, rewrite, select, Row,
};
use crate::services::volume::{group_lookup, lemma_lookup_domain, variation_lookup, VariationGroup};
use std::collections::HashMap;
use vstd::prelude::*;
use vstd::string::StringExecFns;

verus! {

broadcast use vstd::std_specs::hash::group_hash_axioms;

/// Why the store did not do what was asked.
#[derive(Clone, Copy, Debug, PartialEq, Eq, Structural)]
pub enum StoreError {
    /// No row has the given id and belongs to the acting user. Whether the
    /// id is unknown or the row is another user's is not told.
    NotFoundOrForbidden,
    /// The store is not open, or has no id left to give.
    Unavailable,
}

/// The kind of row that a request was about.
#[derive(Clone, Copy, Debug, PartialEq, Eq, Structural)]
pub enum Entity {
    /// A workout session.
    Session,
    /// A strength set.
    StrengthSet,
    /// A cardio log.
    CardioLog,
    /// A muscle group, a variation or a cardio exercise.
    Catalog,
}

/// The words in which an error is told to a caller.
pub open spec fn error_text(error: StoreError, entity: Entity) -> Seq<char> {
    match error {
        StoreError::Unavailable => "Pool not initialized"@,
        StoreError::NotFoundOrForbidden => match entity {
            Entity::Session => "Session not found or access denied"@,
            Entity::StrengthSet => "Set not found or access denied"@,
            Entity::CardioLog => "Cardio log not found or access denied"@,
            Entity::Catalog => "Catalog entry not found or access denied"@,
        },
    }
}

impl StoreError {
    /// The words in which this error is told to a caller who asked about a
    /// row of the kind `entity`. They are the same whether the row is
    /// another user's or does not exist.
    pub fn message(&self, entity: Entity) -> (r: String)
        ensures
            r@ == error_text(*self, entity),
    {
        match self {
            StoreError::Unavailable => String::from_str("Pool not initialized"),
            StoreError::NotFoundOrForbidden => match entity {
                Entity::Session => String::from_str("Session not found or access denied"),
                Entity::StrengthSet => String::from_str("Set not found or access denied"),
                Entity::CardioLog => String::from_str("Cardio log not found or access denied"),
                Entity::Catalog => String::from_str("Catalog entry not found or access denied"),
            },
        }
    }
}

/// What a [`WorkoutDB`] holds: whether it is open, the rows of each table in
/// the order in which they were added, and the id that each table gives out
/// next.
pub ghost struct StoreView {
    pub open: bool,
    pub sessions: Seq<WorkoutSession>,
    pub next_session_id: int,
    pub sets: Seq<WorkoutSet>,
    pub next_set_id: int,
    pub cardio_logs: Seq<CardioLog>,
    pub next_cardio_log_id: int,
    pub muscle_groups: Seq<MuscleGroup>,
    pub next_muscle_group_id: int,
    pub variations: Seq<Variation>,
    pub next_variation_id: int,
    pub cardio_exercises: Seq<CardioExercise>,
    pub next_cardio_exercise_id: int,
}

impl StoreView {
    /// In each table the ids count up in the order of the rows, and all lie
    /// below the id that the table gives out next, which is an id still.
    pub open spec fn wf(self) -> bool {
        &&& self.next_session_id <= i32::MAX
        &&& self.next_set_id <= i32::MAX
        &&& self.next_cardio_log_id <= i32::MAX
        &&& self.next_muscle_group_id <= i32::MAX
        &&& self.next_variation_id <= i32::MAX
        &&& self.next_cardio_exercise_id <= i32::MAX
        &&& ids_in_order(
            self.sessions.map_values(|row: WorkoutSession| row.id as int),
            self.next_session_id,
        )
        &&& ids_in_order(self.sets.map_values(|row: WorkoutSet| row.id as int), self.next_set_id)
        &&& ids_in_order(
            self.cardio_logs.map_values(|row: CardioLog| row.id as int),
            self.next_cardio_log_id,
        )
        &&& ids_in_order(
            self.muscle_groups.map_values(|row: MuscleGroup| row.id as int),
            self.next_muscle_group_id,
        )
        &&& ids_in_order(
            self.variations.map_values(|row: Variation| row.id as int),
            self.next_variation_id,
        )
        &&& ids_in_order(
            self.cardio_exercises.map_values(|row: CardioExercise| row.id as int),
            self.next_cardio_exercise_id,
        )
    }
}

/// The title under which a new session is stored: its own, or `Session-`
/// and the date where it has none.
pub open spec fn stored_title(session: NewWorkoutSession) -> Seq<char> {
    match session.title {
        Some(title) => title@,
        None => "Session-"@ + date_text(session.date@),
    }
}

/// Whether `row` is the session `session` as it is stored under the id `id`.
pub open spec fn is_stored_session(
    row: WorkoutSession,
    session: NewWorkoutSession,
    id: int,
) -> bool {
    &&& row.id == id
    &&& row.user_id == session.user_id
    &&& row.title matches Some(title) && title@ == stored_title(session)
    &&& row.date == session.date
    &&& row.start_time == session.start_time
    &&& row.end_time == session.end_time
    &&& row.notes == session.notes
}

/// The set `set` as it is stored under the id `id`.
pub open spec fn stored_set(set: NewWorkoutSet, id: int) -> WorkoutSet {
    WorkoutSet {
        id: id as i32,
        user_id: set.user_id,
        workout_session_id: set.workout_session_id,
        variation_id: set.variation_id,
        weight_bits: set.weight_bits,
        reps: set.reps,
        performed_on: set.performed_on,
    }
}

/// The cardio log `log` as it is stored under the id `id`.
pub open spec fn stored_cardio_log(log: NewCardioLog, id: int) -> CardioLog {
    CardioLog {
        id: id as i32,
        user_id: log.user_id,
        workout_session_id: log.workout_session_id,
        cardio_exercise_id: log.cardio_exercise_id,
        duration_minutes: log.duration_minutes,
        performed_on: log.performed_on,
    }
}

/// Whether `after` is the store `before` with the session `session` added
/// as its last: nothing else differs.
pub open spec fn session_added(
    before: StoreView,
    after: StoreView,
    session: NewWorkoutSession,
) -> bool {
    &&& after.sessions.len() == before.sessions.len() + 1
    &&& is_stored_session(after.sessions.last(), session, before.next_session_id)
    &&& after == (StoreView {
        sessions: before.sessions.push(after.sessions.last()),
        next_session_id: before.next_session_id + 1,
        ..before
    })
}

/// Whether `after` is the store `before` with the muscle group `data` added
/// as its last, owned by the user who created it: nothing else differs.
pub open spec fn muscle_group_added(
    before: StoreView,
    after: StoreView,
    data: NewMuscleGroup,
) -> bool {
    &&& after.muscle_groups.len() == before.muscle_groups.len() + 1
    &&& after.muscle_groups.last().id == before.next_muscle_group_id
    &&& after.muscle_groups.last().name == data.name
    &&& after.muscle_groups.last().owner.id() == data.user_id
    &&& after == (StoreView {
        muscle_groups: before.muscle_groups.push(after.muscle_groups.last()),
        next_muscle_group_id: before.next_muscle_group_id + 1,
        ..before
    })
}

/// Whether `after` is the store `before` with the variation `data` added as
/// its last, owned by the user who created it: nothing else differs.
pub open spec fn variation_added(before: StoreView, after: StoreView, data: NewVariation) -> bool {
    &&& after.variations.len() == before.variations.len() + 1
    &&& after.variations.last().id == before.next_variation_id
    &&& after.variations.last().muscle_group_id == data.muscle_group_id
    &&& after.variations.last().name == data.name
    &&& after.variations.last().owner.id() == data.user_id
    &&& after == (StoreView {
        variations: before.variations.push(after.variations.last()),
        next_variation_id: before.next_variation_id + 1,
        ..before
    })
}

/// Whether `after` is the store `before` with the cardio exercise `data`
/// added as its last, owned by the user who created it: nothing else
/// differs.
pub open spec fn cardio_exercise_added(
    before: StoreView,
    after: StoreView,
    data: NewCardioExercise,
) -> bool {
    &&& after.cardio_exercises.len() == before.cardio_exercises.len() + 1
    &&& after.cardio_exercises.last().id == before.next_cardio_exercise_id
    &&& after.cardio_exercises.last().name == data.name
    &&& after.cardio_exercises.last().owner.id() == data.user_id
    &&& after == (StoreView {
        cardio_exercises: before.cardio_exercises.push(after.cardio_exercises.last()),
        next_cardio_exercise_id: before.next_cardio_exercise_id + 1,
        ..before
    })
}

/// Whether `row` is the session `id` of the user `user_id`.
pub open spec fn owns_session(row: WorkoutSession, user_id: int, id: int) -> bool {
    row.id == id && row.user_id == user_id
}

/// Whether `row` is the set `id` of the user `user_id`.
pub open spec fn owns_set(row: WorkoutSet, user_id: int, id: int) -> bool {
    row.id == id && row.user_id == user_id
}

/// Whether `row` is the cardio log `id` of the user `user_id`.
pub open spec fn owns_cardio_log(row: CardioLog, user_id: int, id: int) -> bool {
    row.id == id && row.user_id == user_id
}

/// The session `row` after the changes of `data`: each field that `data`
/// holds replaces the row's, every other field stays.
pub open spec fn patched_session(
    row: WorkoutSession,
    data: UpdateWorkoutSession,
) -> WorkoutSession {
    WorkoutSession {
        id: row.id,
        user_id: row.user_id,
        title: if data.title is Some {
            data.title
        } else {
            row.title
        },
        date: if data.date is Some {
            data.date->0
        } else {
            row.date
        },
        start_time: if data.start_time is Some {
            data.start_time->0
        } else {
            row.start_time
        },
        end_time: if data.end_time is Some {
            data.end_time->0
        } else {
            row.end_time
        },
        notes: if data.notes is Some {
            data.notes
        } else {
            row.notes
        },
    }
}

/// The set `row` after the changes of `data`.
pub open spec fn patched_set(row: WorkoutSet, data: UpdateWorkoutSet) -> WorkoutSet {
    WorkoutSet {
        id: row.id,
        user_id: row.user_id,
        workout_session_id: row.workout_session_id,
        variation_id: row.variation_id,
        weight_bits: if data.weight_bits is Some {
            data.weight_bits->0
        } else {
            row.weight_bits
        },
        reps: if data.reps is Some {
            data.reps->0
        } else {
            row.reps
        },
        performed_on: row.performed_on,
    }
}

/// The cardio log `row` after the changes of `data`.
pub open spec fn patched_cardio_log(row: CardioLog, data: UpdateCardioLog) -> CardioLog {
    CardioLog {
        id: row.id,
        user_id: row.user_id,
        workout_session_id: row.workout_session_id,
        cardio_exercise_id: row.cardio_exercise_id,
        duration_minutes: if data.duration_minutes is Some {
            data.duration_minutes->0
        } else {
            row.duration_minutes
        },
        performed_on: row.performed_on,
    }
}

/// The sessions with the given id that belong to `user_id`: one or none.
pub open spec fn sessions_of(
    rows: Seq<WorkoutSession>,
    user_id: int,
    id: int,
) -> Seq<WorkoutSession> {
    rows.filter(|row: WorkoutSession| owns_session(row, user_id, id))
}

/// The sessions but the one with the given id that belongs to `user_id`.
pub open spec fn sessions_without(
    rows: Seq<WorkoutSession>,
    user_id: int,
    id: int,
) -> Seq<WorkoutSession> {
    rows.filter(|row: WorkoutSession| !owns_session(row, user_id, id))
}

/// The sessions with `data` applied to the one with the given id that
/// belongs to `user_id`.
pub open spec fn sessions_patched(
    rows: Seq<WorkoutSession>,
    user_id: int,
    id: int,
    data: UpdateWorkoutSession,
) -> Seq<
    WorkoutSession,
> {
    rows.map_values(
        |row: WorkoutSession|
            if owns_session(row, user_id, id) {
                patched_session(row, data)
            } else {
                row
            },
    )
}

/// The sets with the given id that belong to `user_id`: one or none.
pub open spec fn sets_of(rows: Seq<WorkoutSet>, user_id: int, id: int) -> Seq<WorkoutSet> {
    rows.filter(|row: WorkoutSet| owns_set(row, user_id, id))
}

/// The sets but the one with the given id that belongs to `user_id`.
pub open spec fn sets_without(rows: Seq<WorkoutSet>, user_id: int, id: int) -> Seq<WorkoutSet> {
    rows.filter(|row: WorkoutSet| !owns_set(row, user_id, id))
}

/// The sets with `data` applied to the one with the given id that
/// belongs to `user_id`.
pub open spec fn sets_patched(
    rows: Seq<WorkoutSet>,
    user_id: int,
    id: int,
    data: UpdateWorkoutSet,
) -> Seq<
    WorkoutSet,
> {
    rows.map_values(
        |row: WorkoutSet|
            if owns_set(row, user_id, id) {
                patched_set(row, data)
            } else {
                row
            },
    )
}

/// The cardio logs with the given id that belong to `user_id`: one or none.
pub open spec fn cardio_logs_of(rows: Seq<CardioLog>, user_id: int, id: int) -> Seq<CardioLog> {
    rows.filter(|row: CardioLog| owns_cardio_log(row, user_id, id))
}

/// The cardio logs but the one with the given id that belongs to `user_id`.
pub open spec fn cardio_logs_without(
    rows: Seq<CardioLog>,
    user_id: int,
    id: int,
) -> Seq<CardioLog> {
    rows.filter(|row: CardioLog| !owns_cardio_log(row, user_id, id))
}

/// The cardio logs with `data` applied to the one with the given id that
/// belongs to `user_id`.
pub open spec fn cardio_logs_patched(
    rows: Seq<CardioLog>,
    user_id: int,
    id: int,
    data: UpdateCardioLog,
) -> Seq<
    CardioLog,
> {
    rows.map_values(
        |row: CardioLog|
            if owns_cardio_log(row, user_id, id) {
                patched_cardio_log(row, data)
            } else {
                row
            },
    )
}

/// The sessions of `user_id` whose date lies in the given month of the given
/// year.
pub open spec fn sessions_in_month(
    rows: Seq<WorkoutSession>,
    user_id: int,
    year: int,
    month: int,
) -> Seq<
    WorkoutSession,
> {
    rows.filter(
        |row: WorkoutSession|
            row.user_id == user_id && civil_year(row.date@) == year && civil_month(row.date@)
                == month,
    )
}

/// The sets of `user_id` for the variation `variation_id` that were
/// performed from `start` to `end`, both days included.
pub open spec fn sets_of_variation(
    rows: Seq<WorkoutSet>,
    user_id: int,
    variation_id: int,
    start: int,
    end: int,
) -> Seq<WorkoutSet> {
    rows.filter(
        |row: WorkoutSet|
            row.user_id == user_id && row.variation_id == variation_id && start
                <= row.performed_on@ <= end,
    )
}

/// Whether `row` is a variation of one of the muscle groups `groups` that
/// the user `user_id` sees.
pub open spec fn in_groups(row: Variation, groups: Seq<i32>, user_id: int) -> bool {
    groups.contains(row.muscle_group_id) && row.owner.shows_to(user_id)
}

/// The variations of the muscle groups `groups` that the user `user_id`
/// sees, each with its muscle group.
pub open spec fn variation_groups(rows: Seq<Variation>, groups: Seq<i32>, user_id: int) -> Seq<
    VariationGroup,
> {
    rows.filter(|row: Variation| in_groups(row, groups, user_id)).map_values(
        |row: Variation|
            VariationGroup { muscle_group_id: row.muscle_group_id, variation_id: row.id },
    )
}

/// Whether the variation `variation_id` is one of the muscle groups `groups`
/// that the user `user_id` sees.
pub open spec fn joins_groups(
    variations: Seq<Variation>,
    groups: Seq<i32>,
    user_id: int,
    variation_id: int,
) -> bool {
    exists|k: int|
        0 <= k < variations.len() && (#[trigger] variations[k]).id == variation_id && in_groups(
            variations[k],
            groups,
            user_id,
        )
}

/// The sets of `user_id` that were performed from `start` to `end`, both
/// days included, for a variation of one of the muscle groups `groups` that
/// the user sees.
pub open spec fn sets_of_groups(
    rows: Seq<WorkoutSet>,
    variations: Seq<Variation>,
    user_id: int,
    groups: Seq<i32>,
    start: int,
    end: int,
) -> Seq<WorkoutSet> {
    rows.filter(
        |row: WorkoutSet|
            row.user_id == user_id && start <= row.performed_on@ <= end && joins_groups(
                variations,
                groups,
                user_id,
                row.variation_id as int,
            ),
    )
}

/// The sets of `user_id` that belong to the session `session_id`.
pub open spec fn sets_of_session(rows: Seq<WorkoutSet>, user_id: int, session_id: int) -> Seq<
    WorkoutSet,
> {
    rows.filter(
        |row: WorkoutSet|
            row.user_id == user_id && (row.workout_session_id matches Some(id) && id
                == session_id),
    )
}

/// The cardio logs of `user_id` that belong to the session `session_id`.
pub open spec fn cardio_logs_of_session(rows: Seq<CardioLog>, user_id: int, session_id: int) -> Seq<
    CardioLog,
> {
    rows.filter(
        |row: CardioLog|
            row.user_id == user_id && (row.workout_session_id matches Some(id) && id
                == session_id),
    )
}

/// The muscle groups that the user `user_id` sees: the user's own and the
/// shared ones.
pub open spec fn visible_muscle_groups(rows: Seq<MuscleGroup>, user_id: int) -> Seq<MuscleGroup> {
    rows.filter(|row: MuscleGroup| row.owner.shows_to(user_id))
}

/// The variations that the user `user_id` sees.
pub open spec fn visible_variations(rows: Seq<Variation>, user_id: int) -> Seq<Variation> {
    rows.filter(|row: Variation| row.owner.shows_to(user_id))
}

/// The cardio exercises that the user `user_id` sees.
pub open spec fn visible_cardio_exercises(rows: Seq<CardioExercise>, user_id: int) -> Seq<
    CardioExercise,
> {
    rows.filter(|row: CardioExercise| row.owner.shows_to(user_id))
}

/// The sessions of `user_id`.
pub open spec fn sessions_of_user(rows: Seq<WorkoutSession>, user_id: int) -> Seq<WorkoutSession> {
    rows.filter(|row: WorkoutSession| row.user_id == user_id)
}

/// The sessions `sorted` with `row` put in behind every session that starts
/// when `row` starts or later.
pub open spec fn insert_latest(sorted: Seq<WorkoutSession>, row: WorkoutSession) -> Seq<
    WorkoutSession,
>
    decreases sorted.len(),
{
    if sorted.len() == 0 {
        seq![row]
    } else if later_than(row.start_time@, sorted.last().start_time@) {
        insert_latest(sorted.drop_last(), row).push(sorted.last())
    } else {
        sorted.push(row)
    }
}

/// The sessions ordered by their start, the latest first; sessions that
/// start at the same instant keep their order.
pub open spec fn latest_first(rows: Seq<WorkoutSession>) -> Seq<WorkoutSession>
    decreases rows.len(),
{
    if rows.len() == 0 {
        Seq::empty()
    } else {
        insert_latest(latest_first(rows.drop_last()), rows.last())
    }
}

/// The latest `limit` sessions of `user_id`, the latest first.
pub open spec fn history(rows: Seq<WorkoutSession>, user_id: int, limit: int) -> Seq<
    WorkoutSession,
> {
    let ordered = latest_first(sessions_of_user(rows, user_id));
    if limit < ordered.len() {
        ordered.take(limit)
    } else {
        ordered
    }
}

/// Put in at the place behind which every session starts earlier and before
/// which none does, `row` is put in as [`insert_latest`] puts it.
proof fn lemma_insert_latest(sorted: Seq<WorkoutSession>, row: WorkoutSession, place: int)
    requires
        0 <= place <= sorted.len(),
        forall|k: int|
            place <= k < sorted.len() ==> later_than(
                row.start_time@,
                (#[trigger] sorted[k]).start_time@,
            ),
        place > 0 ==> !later_than(row.start_time@, sorted[place - 1].start_time@),
    ensures
        insert_latest(sorted, row) == sorted.insert(place, row),
    decreases sorted.len(),
{
    if sorted.len() == 0 {
        assert(sorted.insert(place, row) =~= seq![row]);
    } else if place == sorted.len() {
        assert(sorted.insert(place, row) =~= sorted.push(row));
    } else {
        assert(later_than(row.start_time@, sorted[sorted.len() - 1].start_time@));
        lemma_insert_latest(sorted.drop_last(), row, place);
        assert(sorted.insert(place, row) =~= sorted.drop_last().insert(place, row).push(
            sorted.last(),
        ));
    }
}

/// Ordered the latest first, no session stands before one that starts
/// later, and the sessions are as many as they were.
pub proof fn lemma_latest_first_is_ordered(rows: Seq<WorkoutSession>)
    ensures
        latest_first(rows).len() == rows.len(),
        forall|i: int, j: int|
            0 <= i < j < rows.len() ==> !later_than(
                latest_first(rows)[j].start_time@,
                latest_first(rows)[i].start_time@,
            ),
        forall|i: int| 0 <= i < rows.len() ==> rows.contains(#[trigger] latest_first(rows)[i]),
    decreases rows.len(),
{
    if rows.len() > 0 {
        let before = rows.drop_last();
        let row = rows.last();
        lemma_latest_first_is_ordered(before);
        lemma_insert_keeps_order(latest_first(before), row);
        assert forall|i: int| 0 <= i < rows.len() implies rows.contains(
            #[trigger] latest_first(rows)[i],
        ) by {
            let item = latest_first(rows)[i];
            if item == row {
                assert(rows[rows.len() - 1] == row);
            } else {
                assert(latest_first(before).contains(item));
                let n = choose|n: int|
                    0 <= n < latest_first(before).len() && latest_first(before)[n] == item;
                assert(before.contains(latest_first(before)[n]));
                let k = choose|k: int| 0 <= k < before.len() && before[k] == item;
                assert(rows[k] == item);
            }
        }
    }
}

/// Putting a session in keeps the order, adds one session and nothing else.
proof fn lemma_insert_keeps_order(sorted: Seq<WorkoutSession>, row: WorkoutSession)
    requires
        forall|i: int, j: int|
            0 <= i < j < sorted.len() ==> !later_than(sorted[j].start_time@, sorted[i].start_time@),
    ensures
        insert_latest(sorted, row).len() == sorted.len() + 1,
        forall|i: int, j: int|
            0 <= i < j < sorted.len() + 1 ==> !later_than(
                insert_latest(sorted, row)[j].start_time@,
                insert_latest(sorted, row)[i].start_time@,
            ),
        forall|i: int|
            0 <= i < sorted.len() + 1 ==> (#[trigger] insert_latest(sorted, row)[i]) == row
                || sorted.contains(insert_latest(sorted, row)[i]),
    decreases sorted.len(),
{
    if sorted.len() > 0 {
        let last = sorted.last();
        let before = sorted.drop_last();
        if later_than(row.start_time@, last.start_time@) {
            lemma_insert_keeps_order(before, row);
            let inner = insert_latest(before, row);
            let out = insert_latest(sorted, row);
            assert forall|i: int| 0 <= i < sorted.len() + 1 implies (#[trigger] out[i]) == row
                || sorted.contains(out[i]) by {
                if i < inner.len() {
                    if inner[i] != row {
                        assert(before.contains(inner[i]));
                        let k = choose|k: int| 0 <= k < before.len() && before[k] == inner[i];
                        assert(sorted[k] == inner[i]);
                    }
                } else {
                    assert(sorted[sorted.len() - 1] == out[i]);
                }
            }
            assert forall|i: int, j: int| 0 <= i < j < sorted.len() + 1 implies !later_than(
                out[j].start_time@,
                out[i].start_time@,
            ) by {
                if j == inner.len() {
                    if inner[i] == row {
                    } else {
                        assert(before.contains(inner[i]));
                        let k = choose|k: int| 0 <= k < before.len() && before[k] == inner[i];
                        assert(sorted[k] == inner[i]);
                        assert(!later_than(
                            sorted[sorted.len() - 1].start_time@,
                            sorted[k].start_time@,
                        ));
                    }
                }
            }
        } else {
            let out = sorted.push(row);
            assert forall|i: int| 0 <= i < sorted.len() + 1 implies (#[trigger] out[i]) == row
                || sorted.contains(out[i]) by {
                if i < sorted.len() {
                    assert(sorted[i] == out[i]);
                }
            }
            assert forall|i: int, j: int| 0 <= i < j < sorted.len() + 1 implies !later_than(
                out[j].start_time@,
                out[i].start_time@,
            ) by {
                if j == sorted.len() {
                    assert(!later_than(sorted[sorted.len() - 1].start_time@, sorted[i].start_time@)
                        || i == sorted.len() - 1);
                }
            }
        }
    }
}

/// The workout store.
pub struct WorkoutDB {
    open: bool,
    sessions: Vec<WorkoutSession>,
    next_session_id: i32,
    sets: Vec<WorkoutSet>,
    next_set_id: i32,
    cardio_logs: Vec<CardioLog>,
    next_cardio_log_id: i32,
    muscle_groups: Vec<MuscleGroup>,
    next_muscle_group_id: i32,
    variations: Vec<Variation>,
    next_variation_id: i32,
    cardio_exercises: Vec<CardioExercise>,
    next_cardio_exercise_id: i32,
}

impl View for WorkoutDB {
    type V = StoreView;

    closed spec fn view(&self) -> StoreView {
        StoreView {
            open: self.open,
            sessions: self.sessions@,
            next_session_id: self.next_session_id as int,
            sets: self.sets@,
            next_set_id: self.next_set_id as int,
            cardio_logs: self.cardio_logs@,
            next_cardio_log_id: self.next_cardio_log_id as int,
            muscle_groups: self.muscle_groups@,
            next_muscle_group_id: self.next_muscle_group_id as int,
            variations: self.variations@,
            next_variation_id: self.next_variation_id as int,
            cardio_exercises: self.cardio_exercises@,
            next_cardio_exercise_id: self.next_cardio_exercise_id as int,
        }
    }
}

/// The session as it is stored: under its own title, or under `Session-`
/// and its date where it has none.
pub fn with_title(session: NewWorkoutSession) -> (r: NewWorkoutSession)
    ensures
        r.title matches Some(title) && title@ == stored_title(session),
        r.user_id == session.user_id,
        r.date == session.date,
        r.notes == session.notes,
        r.start_time == session.start_time,
        r.end_time == session.end_time,
{
    let title: String = match session.title {
        Some(title) => title,
        None => {
            let mut title = String::from_str("Session-");
            let date = session.date.to_string();
            title.append(date.as_str());
            title
        },
    };
    NewWorkoutSession {
        user_id: session.user_id,
        date: session.date,
        title: Some(title),
        notes: session.notes,
        start_time: session.start_time,
        end_time: session.end_time,
    }
}

/// What a change or a deletion comes to that reached `affected` rows: one
/// that reached none found no row of the acting user.
pub fn affected_outcome(affected: usize) -> (r: Result<(), StoreError>)
    ensures
        r == if affected == 0 {
            Err::<(), StoreError>(StoreError::NotFoundOrForbidden)
        } else {
            Ok::<(), StoreError>(())
        },
{
    if affected == 0 {
        Err(StoreError::NotFoundOrForbidden)
    } else {
        Ok(())
    }
}

/// The number of rows that a history of at most `limit` rows may hold. A
/// negative limit is refused.
pub fn checked_limit(limit: i64) -> (r: Result<i64, StoreError>)
    ensures
        r == if limit < 0 {
            Err::<i64, StoreError>(StoreError::Unavailable)
        } else {
            Ok::<i64, StoreError>(limit)
        },
{
    if limit < 0 {
        Err(StoreError::Unavailable)
    } else {
        Ok(limit)
    }
}

/// Whether `id` is among `ids`.
pub fn contains_id(ids: &Vec<i32>, id: i32) -> (r: bool)
    ensures
        r == ids@.contains(id),
{
    let mut i: usize = 0;
    while i < ids.len()
        invariant
            i <= ids.len(),
            forall|k: int| 0 <= k < i ==> ids[k] != id,
        decreases ids.len() - i,
    {
        if ids[i] == id {
            return true;
        }
        i = i + 1;
    }
    false
}

/// The session `row` after the changes of `data`.
fn patch_session(row: &WorkoutSession, data: &UpdateWorkoutSession) -> (r: WorkoutSession)
    ensures
        r == patched_session(*row, *data),
{
    WorkoutSession {
        id: row.id,
        user_id: row.user_id,
        title: match &data.title {
            Some(title) => Some(title.clone()),
            None => clone_text(&row.title),
        },
        date: match data.date {
            Some(date) => date,
            None => row.date,
        },
        start_time: match data.start_time {
            Some(time) => time,
            None => row.start_time,
        },
        end_time: match data.end_time {
            Some(time) => time,
            None => row.end_time,
        },
        notes: match &data.notes {
            Some(notes) => Some(notes.clone()),
            None => clone_text(&row.notes),
        },
    }
}

/// The set `row` after the changes of `data`.
fn patch_set(row: &WorkoutSet, data: &UpdateWorkoutSet) -> (r: WorkoutSet)
    ensures
        r == patched_set(*row, *data),
{
    WorkoutSet {
        id: row.id,
        user_id: row.user_id,
        workout_session_id: row.workout_session_id,
        variation_id: row.variation_id,
        weight_bits: match data.weight_bits {
            Some(bits) => bits,
            None => row.weight_bits,
        },
        reps: match data.reps {
            Some(reps) => reps,
            None => row.reps,
        },
        performed_on: row.performed_on,
    }
}

/// The cardio log `row` after the changes of `data`.
fn patch_cardio_log(row: &CardioLog, data: &UpdateCardioLog) -> (r: CardioLog)
    ensures
        r == patched_cardio_log(*row, *data),
{
    CardioLog {
        id: row.id,
        user_id: row.user_id,
        workout_session_id: row.workout_session_id,
        cardio_exercise_id: row.cardio_exercise_id,
        duration_minutes: match data.duration_minutes {
            Some(minutes) => minutes,
            None => row.duration_minutes,
        },
        performed_on: row.performed_on,
    }
}

impl WorkoutDB {
    /// An empty store that is not yet open.
    pub fn new() -> (r: WorkoutDB)
        ensures
            r@.wf(),
            !r@.open,
            r@.sessions.len() == 0,
            r@.sets.len() == 0,
            r@.cardio_logs.len() == 0,
            r@.muscle_groups.len() == 0,
            r@.variations.len() == 0,
            r@.cardio_exercises.len() == 0,
            r@.next_session_id == 1,
            r@.next_set_id == 1,
            r@.next_cardio_log_id == 1,
            r@.next_muscle_group_id == 1,
            r@.next_variation_id == 1,
            r@.next_cardio_exercise_id == 1,
    {
        WorkoutDB {
            open: false,
            sessions: Vec::new(),
            next_session_id: 1,
            sets: Vec::new(),
            next_set_id: 1,
            cardio_logs: Vec::new(),
            next_cardio_log_id: 1,
            muscle_groups: Vec::new(),
            next_muscle_group_id: 1,
            variations: Vec::new(),
            next_variation_id: 1,
            cardio_exercises: Vec::new(),
            next_cardio_exercise_id: 1,
        }
    }

    /// Opens the store. Until then every read and write fails with
    /// [`StoreError::Unavailable`].
    pub fn init(&mut self) -> (r: Result<(), StoreError>)
        ensures
            r is Ok,
            final(self)@ == (StoreView { open: true, ..old(self)@ }),
    {
        self.open = true;
        Ok(())
    }

    /// Stores a new session and returns the stored row.
    ///
    /// The row gets the next id. A session without a title is stored under
    /// the title `Session-` followed by its date.
    pub fn add_workout_session(&mut self, session: NewWorkoutSession) -> (r: Result<
        WorkoutSession,
        StoreError,
    >)
        requires
            old(self)@.wf(),
        ensures
            final(self)@.wf(),
            r is Ok <==> old(self)@.open && old(self)@.next_session_id < i32::MAX,
            r is Err ==> r == Err::<WorkoutSession, StoreError>(StoreError::Unavailable)
                && final(self)@ == old(self)@,
            r matches Ok(row) ==> row == final(self)@.sessions.last() && session_added(
                old(self)@,
                final(self)@,
                session,
            ),
    {
        if !self.open || self.next_session_id == i32::MAX {
            return Err(StoreError::Unavailable);
        }
        let titled = with_title(session);
        let row = WorkoutSession {
            id: self.next_session_id,
            user_id: titled.user_id,
            title: titled.title,
            date: titled.date,
            start_time: titled.start_time,
            end_time: titled.end_time,
            notes: titled.notes,
        };
        proof {
            lemma_push_keeps_ids(
                self.sessions@,
                row,
                |row: WorkoutSession| row.id as int,
                self.next_session_id as int,
            );
        }
        self.sessions.push(row.duplicate());
        self.next_session_id = self.next_session_id + 1;
        Ok(row)
    }

    /// Stores a new strength set as it is, under the next id.
    pub fn add_workout_set(&mut self, set: NewWorkoutSet) -> (r: Result<(), StoreError>)
        requires
            old(self)@.wf(),
        ensures
            final(self)@.wf(),
            r is Ok <==> old(self)@.open && old(self)@.next_set_id < i32::MAX,
            r is Err ==> r == Err::<(), StoreError>(StoreError::Unavailable) && final(self)@
                == old(self)@,
            r is Ok ==> final(self)@ == (StoreView {
                sets: old(self)@.sets.push(stored_set(set, old(self)@.next_set_id)),
                next_set_id: old(self)@.next_set_id + 1,
                ..old(self)@
            }),
    {
        if !self.open || self.next_set_id == i32::MAX {
            return Err(StoreError::Unavailable);
        }
        let row = WorkoutSet {
            id: self.next_set_id,
            user_id: set.user_id,
            workout_session_id: set.workout_session_id,
            variation_id: set.variation_id,
            weight_bits: set.weight_bits,
            reps: set.reps,
            performed_on: set.performed_on,
        };
        proof {
            lemma_push_keeps_ids(
                self.sets@,
                row,
                |row: WorkoutSet| row.id as int,
                self.next_set_id as int,
            );
        }
        self.sets.push(row);
        self.next_set_id = self.next_set_id + 1;
        Ok(())
    }

    /// Stores a new cardio log as it is, under the next id.
    pub fn add_workout_cardio(&mut self, log: NewCardioLog) -> (r: Result<(), StoreError>)
        requires
            old(self)@.wf(),
        ensures
            final(self)@.wf(),
            r is Ok <==> old(self)@.open && old(self)@.next_cardio_log_id < i32::MAX,
            r is Err ==> r == Err::<(), StoreError>(StoreError::Unavailable) && final(self)@
                == old(self)@,
            r is Ok ==> final(self)@ == (StoreView {
                cardio_logs: old(self)@.cardio_logs.push(
                    stored_cardio_log(log, old(self)@.next_cardio_log_id),
                ),
                next_cardio_log_id: old(self)@.next_cardio_log_id + 1,
                ..old(self)@
            }),
    {
        if !self.open || self.next_cardio_log_id == i32::MAX {
            return Err(StoreError::Unavailable);
        }
        let row = CardioLog {
            id: self.next_cardio_log_id,
            user_id: log.user_id,
            workout_session_id: log.workout_session_id,
            cardio_exercise_id: log.cardio_exercise_id,
            duration_minutes: log.duration_minutes,
            performed_on: log.performed_on,
        };
        proof {
            lemma_push_keeps_ids(
                self.cardio_logs@,
                row,
                |row: CardioLog| row.id as int,
                self.next_cardio_log_id as int,
            );
        }
        self.cardio_logs.push(row);
        self.next_cardio_log_id = self.next_cardio_log_id + 1;
        Ok(())
    }

    /// Stores a new muscle group for the user who creates it and returns the
    /// stored row. Created by the user `SYSTEM_USER`, the row is shared.
    pub fn add_muscle_group(&mut self, data: NewMuscleGroup) -> (r: Result<MuscleGroup, StoreError>)
        requires
            old(self)@.wf(),
        ensures
            final(self)@.wf(),
            r is Ok <==> old(self)@.open && old(self)@.next_muscle_group_id < i32::MAX,
            r is Err ==> r == Err::<MuscleGroup, StoreError>(StoreError::Unavailable) && final(self)@
                == old(self)@,
            r matches Ok(row) ==> row == final(self)@.muscle_groups.last() && muscle_group_added(
                old(self)@,
                final(self)@,
                data,
            ),
    {
        if !self.open || self.next_muscle_group_id == i32::MAX {
            return Err(StoreError::Unavailable);
        }
        let row = MuscleGroup {
            id: self.next_muscle_group_id,
            name: data.name,
            owner: Owner::from_user_id(data.user_id),
        };
        proof {
            lemma_push_keeps_ids(
                self.muscle_groups@,
                row,
                |row: MuscleGroup| row.id as int,
                self.next_muscle_group_id as int,
            );
        }
        self.muscle_groups.push(row.duplicate());
        self.next_muscle_group_id = self.next_muscle_group_id + 1;
        Ok(row)
    }

    /// Stores a new variation for the user who creates it and returns the
    /// stored row. Created by the user `SYSTEM_USER`, the row is shared.
    pub fn add_variation(&mut self, data: NewVariation) -> (r: Result<Variation, StoreError>)
        requires
            old(self)@.wf(),
        ensures
            final(self)@.wf(),
            r is Ok <==> old(self)@.open && old(self)@.next_variation_id < i32::MAX,
            r is Err ==> r == Err::<Variation, StoreError>(StoreError::Unavailable) && final(self)@
                == old(self)@,
            r matches Ok(row) ==> row == final(self)@.variations.last() && variation_added(
                old(self)@,
                final(self)@,
                data,
            ),
    {
        if !self.open || self.next_variation_id == i32::MAX {
            return Err(StoreError::Unavailable);
        }
        let row = Variation {
            id: self.next_variation_id,
            muscle_group_id: data.muscle_group_id,
            name: data.name,
            owner: Owner::from_user_id(data.user_id),
        };
        proof {
            lemma_push_keeps_ids(
                self.variations@,
                row,
                |row: Variation| row.id as int,
                self.next_variation_id as int,
            );
        }
        self.variations.push(row.duplicate());
        self.next_variation_id = self.next_variation_id + 1;
        Ok(row)
    }

    /// Stores a new cardio exercise for the user who creates it and returns the
    /// stored row. Created by the user `SYSTEM_USER`, the row is shared.
    pub fn add_cardio_exercise(
        &mut self,
        data: NewCardioExercise,
    ) -> (r: Result<CardioExercise, StoreError>)
        requires
            old(self)@.wf(),
        ensures
            final(self)@.wf(),
            r is Ok <==> old(self)@.open && old(self)@.next_cardio_exercise_id < i32::MAX,
            r is Err ==> r == Err::<CardioExercise, StoreError>(StoreError::Unavailable) && final(self)@
                == old(self)@,
            r matches Ok(row) ==> row == final(self)@.cardio_exercises.last() && cardio_exercise_added(
                old(self)@,
                final(self)@,
                data,
            ),
    {
        if !self.open || self.next_cardio_exercise_id == i32::MAX {
            return Err(StoreError::Unavailable);
        }
        let row = CardioExercise {
            id: self.next_cardio_exercise_id,
            name: data.name,
            owner: Owner::from_user_id(data.user_id),
        };
        proof {
            lemma_push_keeps_ids(
                self.cardio_exercises@,
                row,
                |row: CardioExercise| row.id as int,
                self.next_cardio_exercise_id as int,
            );
        }
        self.cardio_exercises.push(row.duplicate());
        self.next_cardio_exercise_id = self.next_cardio_exercise_id + 1;
        Ok(row)
    }

    /// Changes the session `session_id` of the user `user_id` and returns the
    /// changed row.
    ///
    /// Only the fields that `data` holds change. Where the user has no
    /// session of that id, nothing changes, and the error does not tell whether
    /// the id is unknown or another user's.
    pub fn update_workout_session(
        &mut self,
        user_id: i32,
        session_id: i32,
        data: UpdateWorkoutSession,
    ) -> (r: Result<
        WorkoutSession,
        StoreError,
    >)
        requires
            old(self)@.wf(),
        ensures
            final(self)@.wf(),
            !old(self)@.open ==> r == Err::<WorkoutSession, StoreError>(StoreError::Unavailable)
                && final(self)@ == old(self)@,
            old(self)@.open ==> {
                let found = sessions_of(old(self)@.sessions, user_id as int, session_id as int);
                &&& final(self)@ == (StoreView {
                    sessions: sessions_patched(
                        old(self)@.sessions,
                        user_id as int,
                        session_id as int,
                        data,
                    ),
                    ..old(self)@
                })
                &&& found.len() == 0 ==> r == Err::<WorkoutSession, StoreError>(
                    StoreError::NotFoundOrForbidden,
                ) && final(self)@ == old(self)@
                &&& found.len() > 0 ==> r == Ok::<WorkoutSession, StoreError>(
                    patched_session(found[0], data),
                )
            },
    {
        if !self.open {
            return Err(StoreError::Unavailable);
        }
        let ghost rows = self.sessions@;
        let ghost mine = |row: WorkoutSession| owns_session(row, user_id as int, session_id as int);
        let ghost others = |row: WorkoutSession| !owns_session(
            row,
            user_id as int,
            session_id as int,
        );
        let ghost change = |row: WorkoutSession|
            if owns_session(row, user_id as int, session_id as int) {
                patched_session(row, data)
            } else {
                row
            };
        let found = first(
            &self.sessions,
            |row: &WorkoutSession| -> (b: bool)
                ensures
                    b == owns_session(*row, user_id as int, session_id as int)
                { row.id == session_id && row.user_id == user_id },
            Ghost(mine),
        );
        let changed = rewrite(
            &self.sessions,
            |row: &WorkoutSession| -> (new: WorkoutSession)
                ensures
                    new == if owns_session(*row, user_id as int, session_id as int) {
                        patched_session(*row, data)
                    } else {
                        *row
                    }
                {
                    if row.id == session_id && row.user_id == user_id {
                        patch_session(row, &data)
                    } else {
                        row.duplicate()
                    }
                },
            Ghost(change),
        );
        proof {
            lemma_split(rows, mine, others, change);
            lemma_change_keeps_ids(
                rows,
                change,
                |row: WorkoutSession| row.id as int,
                self.next_session_id as int,
            );
        }
        self.sessions = changed;
        match found {
            Some(row) => Ok(patch_session(&row, &data)),
            None => Err(StoreError::NotFoundOrForbidden),
        }
    }

    /// Deletes the session `session_id` of the user `user_id`.
    ///
    /// Where the user has no session of that id, nothing is deleted, and the
    /// error does not tell whether the id is unknown or another user's.
    pub fn delete_workout_session(
        &mut self,
        user_id: i32,
        session_id: i32,
    ) -> (r: Result<(), StoreError>)
        requires
            old(self)@.wf(),
        ensures
            final(self)@.wf(),
            !old(self)@.open ==> r == Err::<(), StoreError>(StoreError::Unavailable) && final(self)@
                == old(self)@,
            old(self)@.open ==> {
                let found = sessions_of(old(self)@.sessions, user_id as int, session_id as int);
                &&& final(self)@ == (StoreView {
                    sessions: sessions_without(
                        old(self)@.sessions,
                        user_id as int,
                        session_id as int,
                    ),
                    ..old(self)@
                })
                &&& found.len() == 0 ==> r == Err::<(), StoreError>(
                    StoreError::NotFoundOrForbidden,
                ) && final(self)@ == old(self)@
                &&& found.len() > 0 ==> r == Ok::<(), StoreError>(())
            },
    {
        if !self.open {
            return Err(StoreError::Unavailable);
        }
        let ghost rows = self.sessions@;
        let ghost mine = |row: WorkoutSession| owns_session(row, user_id as int, session_id as int);
        let ghost others = |row: WorkoutSession| !owns_session(
            row,
            user_id as int,
            session_id as int,
        );
        let kept = select(
            &self.sessions,
            |row: &WorkoutSession| -> (b: bool)
                ensures
                    b == !owns_session(*row, user_id as int, session_id as int)
                { !(row.id == session_id && row.user_id == user_id) },
            Ghost(others),
        );
        proof {
            lemma_split(rows, mine, others, |row: WorkoutSession| row);
            lemma_filter_keeps_ids(
                rows,
                others,
                |row: WorkoutSession| row.id as int,
                self.next_session_id as int,
            );
        }
        let deleted: usize = self.sessions.len() - kept.len();
        self.sessions = kept;
        affected_outcome(deleted)
    }

    /// Changes the set `set_id` of the user `user_id` and returns the
    /// changed row.
    ///
    /// Only the fields that `data` holds change. Where the user has no
    /// set of that id, nothing changes, and the error does not tell whether
    /// the id is unknown or another user's.
    pub fn update_workout_set(
        &mut self,
        user_id: i32,
        set_id: i32,
        data: UpdateWorkoutSet,
    ) -> (r: Result<
        WorkoutSet,
        StoreError,
    >)
        requires
            old(self)@.wf(),
        ensures
            final(self)@.wf(),
            !old(self)@.open ==> r == Err::<WorkoutSet, StoreError>(StoreError::Unavailable)
                && final(self)@ == old(self)@,
            old(self)@.open ==> {
                let found = sets_of(old(self)@.sets, user_id as int, set_id as int);
                &&& final(self)@ == (StoreView {
                    sets: sets_patched(
                        old(self)@.sets,
                        user_id as int,
                        set_id as int,
                        data,
                    ),
                    ..old(self)@
                })
                &&& found.len() == 0 ==> r == Err::<WorkoutSet, StoreError>(
                    StoreError::NotFoundOrForbidden,
                ) && final(self)@ == old(self)@
                &&& found.len() > 0 ==> r == Ok::<WorkoutSet, StoreError>(
                    patched_set(found[0], data),
                )
            },
    {
        if !self.open {
            return Err(StoreError::Unavailable);
        }
        let ghost rows = self.sets@;
        let ghost mine = |row: WorkoutSet| owns_set(row, user_id as int, set_id as int);
        let ghost others = |row: WorkoutSet| !owns_set(row, user_id as int, set_id as int);
        let ghost change = |row: WorkoutSet|
            if owns_set(row, user_id as int, set_id as int) {
                patched_set(row, data)
            } else {
                row
            };
        let found = first(
            &self.sets,
            |row: &WorkoutSet| -> (b: bool)
                ensures
                    b == owns_set(*row, user_id as int, set_id as int)
                { row.id == set_id && row.user_id == user_id },
            Ghost(mine),
        );
        let changed = rewrite(
            &self.sets,
            |row: &WorkoutSet| -> (new: WorkoutSet)
                ensures
                    new == if owns_set(*row, user_id as int, set_id as int) {
                        patched_set(*row, data)
                    } else {
                        *row
                    }
                {
                    if row.id == set_id && row.user_id == user_id {
                        patch_set(row, &data)
                    } else {
                        row.duplicate()
                    }
                },
            Ghost(change),
        );
        proof {
            lemma_split(rows, mine, others, change);
            lemma_change_keeps_ids(
                rows,
                change,
                |row: WorkoutSet| row.id as int,
                self.next_set_id as int,
            );
        }
        self.sets = changed;
        match found {
            Some(row) => Ok(patch_set(&row, &data)),
            None => Err(StoreError::NotFoundOrForbidden),
        }
    }

    /// Deletes the set `set_id` of the user `user_id`.
    ///
    /// Where the user has no set of that id, nothing is deleted, and the
    /// error does not tell whether the id is unknown or another user's.
    pub fn delete_workout_set(&mut self, user_id: i32, set_id: i32) -> (r: Result<(), StoreError>)
        requires
            old(self)@.wf(),
        ensures
            final(self)@.wf(),
            !old(self)@.open ==> r == Err::<(), StoreError>(StoreError::Unavailable) && final(self)@
                == old(self)@,
            old(self)@.open ==> {
                let found = sets_of(old(self)@.sets, user_id as int, set_id as int);
                &&& final(self)@ == (StoreView {
                    sets: sets_without(old(self)@.sets, user_id as int, set_id as int),
                    ..old(self)@
                })
                &&& found.len() == 0 ==> r == Err::<(), StoreError>(
                    StoreError::NotFoundOrForbidden,
                ) && final(self)@ == old(self)@
                &&& found.len() > 0 ==> r == Ok::<(), StoreError>(())
            },
    {
        if !self.open {
            return Err(StoreError::Unavailable);
        }
        let ghost rows = self.sets@;
        let ghost mine = |row: WorkoutSet| owns_set(row, user_id as int, set_id as int);
        let ghost others = |row: WorkoutSet| !owns_set(row, user_id as int, set_id as int);
        let kept = select(
            &self.sets,
            |row: &WorkoutSet| -> (b: bool)
                ensures
                    b == !owns_set(*row, user_id as int, set_id as int)
                { !(row.id == set_id && row.user_id == user_id) },
            Ghost(others),
        );
        proof {
            lemma_split(rows, mine, others, |row: WorkoutSet| row);
            lemma_filter_keeps_ids(
                rows,
                others,
                |row: WorkoutSet| row.id as int,
                self.next_set_id as int,
            );
        }
        let deleted: usize = self.sets.len() - kept.len();
        self.sets = kept;
        affected_outcome(deleted)
    }

    /// Changes the cardio log `log_id` of the user `user_id` and returns the
    /// changed row.
    ///
    /// Only the fields that `data` holds change. Where the user has no
    /// cardio log of that id, nothing changes, and the error does not tell whether
    /// the id is unknown or another user's.
    pub fn update_cardio_log(
        &mut self,
        user_id: i32,
        log_id: i32,
        data: UpdateCardioLog,
    ) -> (r: Result<
        CardioLog,
        StoreError,
    >)
        requires
            old(self)@.wf(),
        ensures
            final(self)@.wf(),
            !old(self)@.open ==> r == Err::<CardioLog, StoreError>(StoreError::Unavailable)
                && final(self)@ == old(self)@,
            old(self)@.open ==> {
                let found = cardio_logs_of(old(self)@.cardio_logs, user_id as int, log_id as int);
                &&& final(self)@ == (StoreView {
                    cardio_logs: cardio_logs_patched(
                        old(self)@.cardio_logs,
                        user_id as int,
                        log_id as int,
                        data,
                    ),
                    ..old(self)@
                })
                &&& found.len() == 0 ==> r == Err::<CardioLog, StoreError>(
                    StoreError::NotFoundOrForbidden,
                ) && final(self)@ == old(self)@
                &&& found.len() > 0 ==> r == Ok::<CardioLog, StoreError>(
                    patched_cardio_log(found[0], data),
                )
            },
    {
        if !self.open {
            return Err(StoreError::Unavailable);
        }
        let ghost rows = self.cardio_logs@;
        let ghost mine = |row: CardioLog| owns_cardio_log(row, user_id as int, log_id as int);
        let ghost others = |row: CardioLog| !owns_cardio_log(row, user_id as int, log_id as int);
        let ghost change = |row: CardioLog|
            if owns_cardio_log(row, user_id as int, log_id as int) {
                patched_cardio_log(row, data)
            } else {
                row
            };
        let found = first(
            &self.cardio_logs,
            |row: &CardioLog| -> (b: bool)
                ensures
                    b == owns_cardio_log(*row, user_id as int, log_id as int)
                { row.id == log_id && row.user_id == user_id },
            Ghost(mine),
        );
        let changed = rewrite(
            &self.cardio_logs,
            |row: &CardioLog| -> (new: CardioLog)
                ensures
                    new == if owns_cardio_log(*row, user_id as int, log_id as int) {
                        patched_cardio_log(*row, data)
                    } else {
                        *row
                    }
                {
                    if row.id == log_id && row.user_id == user_id {
                        patch_cardio_log(row, &data)
                    } else {
                        row.duplicate()
                    }
                },
            Ghost(change),
        );
        proof {
            lemma_split(rows, mine, others, change);
            lemma_change_keeps_ids(
                rows,
                change,
                |row: CardioLog| row.id as int,
                self.next_cardio_log_id as int,
            );
        }
        self.cardio_logs = changed;
        match found {
            Some(row) => Ok(patch_cardio_log(&row, &data)),
            None => Err(StoreError::NotFoundOrForbidden),
        }
    }

    /// Deletes the cardio log `log_id` of the user `user_id`.
    ///
    /// Where the user has no cardio log of that id, nothing is deleted, and the
    /// error does not tell whether the id is unknown or another user's.
    pub fn delete_cardio_log(&mut self, user_id: i32, log_id: i32) -> (r: Result<(), StoreError>)
        requires
            old(self)@.wf(),
        ensures
            final(self)@.wf(),
            !old(self)@.open ==> r == Err::<(), StoreError>(StoreError::Unavailable) && final(self)@
                == old(self)@,
            old(self)@.open ==> {
                let found = cardio_logs_of(old(self)@.cardio_logs, user_id as int, log_id as int);
                &&& final(self)@ == (StoreView {
                    cardio_logs: cardio_logs_without(
                        old(self)@.cardio_logs,
                        user_id as int,
                        log_id as int,
                    ),
                    ..old(self)@
                })
                &&& found.len() == 0 ==> r == Err::<(), StoreError>(
                    StoreError::NotFoundOrForbidden,
                ) && final(self)@ == old(self)@
                &&& found.len() > 0 ==> r == Ok::<(), StoreError>(())
            },
    {
        if !self.open {
            return Err(StoreError::Unavailable);
        }
        let ghost rows = self.cardio_logs@;
        let ghost mine = |row: CardioLog| owns_cardio_log(row, user_id as int, log_id as int);
        let ghost others = |row: CardioLog| !owns_cardio_log(row, user_id as int, log_id as int);
        let kept = select(
            &self.cardio_logs,
            |row: &CardioLog| -> (b: bool)
                ensures
                    b == !owns_cardio_log(*row, user_id as int, log_id as int)
                { !(row.id == log_id && row.user_id == user_id) },
            Ghost(others),
        );
        proof {
            lemma_split(rows, mine, others, |row: CardioLog| row);
            lemma_filter_keeps_ids(
                rows,
                others,
                |row: CardioLog| row.id as int,
                self.next_cardio_log_id as int,
            );
        }
        let deleted: usize = self.cardio_logs.len() - kept.len();
        self.cardio_logs = kept;
        affected_outcome(deleted)
    }

    /// The latest `limit` sessions of the user `user_id`, the latest first.
    /// Sessions that start at the same instant come in the order in which
    /// they were added. A negative `limit` is refused.
    pub fn get_history(&self, user_id: i32, limit: i64) -> (r: Result<
        Vec<WorkoutSession>,
        StoreError,
    >)
        ensures
            !self@.open || limit < 0 ==> r == Err::<Vec<WorkoutSession>, StoreError>(
                StoreError::Unavailable,
            ),
            self@.open && limit >= 0 ==> (r matches Ok(rows) && rows@ == history(
                self@.sessions,
                user_id as int,
                limit as int,
            )),
    {
        if !self.open {
            return Err(StoreError::Unavailable);
        }
        let limit: i64 = match checked_limit(limit) {
            Ok(limit) => limit,
            Err(error) => {
                return Err(error);
            },
        };
        let ghost wanted = |row: WorkoutSession| row.user_id == user_id as int;
        let mine = select(
            &self.sessions,
            |row: &WorkoutSession| -> (b: bool)
                ensures
                    b == (row.user_id == user_id as int)
                { row.user_id == user_id },
            Ghost(wanted),
        );
        let mut ordered: Vec<WorkoutSession> = Vec::new();
        let mut i: usize = 0;
        proof {
            assert(mine@.take(0) =~= Seq::<WorkoutSession>::empty());
        }
        while i < mine.len()
            invariant
                i <= mine.len(),
                ordered@ == latest_first(mine@.take(i as int)),
            decreases mine.len() - i,
        {
            let row = mine[i].duplicate();
            let mut place: usize = ordered.len();
            while place > 0 && row.start_time.is_after(&ordered[place - 1].start_time)
                invariant
                    place <= ordered.len(),
                    forall|k: int|
                        place <= k < ordered.len() ==> later_than(
                            row.start_time@,
                            (#[trigger] ordered[k]).start_time@,
                        ),
                decreases place,
            {
                place = place - 1;
            }
            proof {
                lemma_insert_latest(ordered@, row, place as int);
                assert(mine@.take(i + 1).drop_last() =~= mine@.take(i as int));
            }
            ordered.insert(place, row);
            i = i + 1;
        }
        proof {
            assert(mine@.take(i as int) =~= mine@);
        }
        if (ordered.len() as u64) > (limit as u64) {
            ordered.truncate(limit as usize);
        }
        Ok(ordered)
    }

    /// The sessions of the user `user_id` whose date lies in the month
    /// `month` of the year `year`, in the order in which they were added.
    pub fn get_monthly_workout_details(&self, user_id: i32, year: i32, month: i32) -> (r: Result<
        Vec<WorkoutSession>,
        StoreError,
    >)
        ensures
            !self@.open ==> r == Err::<Vec<WorkoutSession>, StoreError>(StoreError::Unavailable),
            self@.open ==> (r matches Ok(rows) && rows@ == sessions_in_month(
                self@.sessions,
                user_id as int,
                year as int,
                month as int,
            )),
    {
        if !self.open {
            return Err(StoreError::Unavailable);
        }
        let ghost wanted = |row: WorkoutSession|
            row.user_id == user_id as int && civil_year(row.date@) == year as int && civil_month(
                row.date@,
            ) == month as int;
        let rows = select(
            &self.sessions,
            |row: &WorkoutSession| -> (b: bool)
                ensures
                    b == (row.user_id == user_id as int && civil_year(row.date@) == year as int
                        && civil_month(row.date@) == month as int)
                {
                    row.user_id == user_id && row.date.year() == year && row.date.month() as i64
                        == month as i64
                },
            Ghost(wanted),
        );
        Ok(rows)
    }

    /// The sets of the user `user_id` for the variation `variation_id` that
    /// were performed from `start_date` to `end_date`, both days included.
    pub fn get_performance_details(
        &self,
        user_id: i32,
        variation_id: i32,
        start_date: Date,
        end_date: Date,
    ) -> (r: Result<Vec<WorkoutSet>, StoreError>)
        ensures
            !self@.open ==> r == Err::<Vec<WorkoutSet>, StoreError>(StoreError::Unavailable),
            self@.open ==> (r matches Ok(rows) && rows@ == sets_of_variation(
                self@.sets,
                user_id as int,
                variation_id as int,
                start_date@,
                end_date@,
            )),
    {
        if !self.open {
            return Err(StoreError::Unavailable);
        }
        let ghost wanted = |row: WorkoutSet|
            row.user_id == user_id as int && row.variation_id == variation_id as int
                && start_date@ <= row.performed_on@ <= end_date@;
        let rows = select(
            &self.sets,
            |row: &WorkoutSet| -> (b: bool)
                ensures
                    b == (row.user_id == user_id as int && row.variation_id == variation_id as int
                        && start_date@ <= row.performed_on@ <= end_date@)
                {
                    row.user_id == user_id && row.variation_id == variation_id
                        && start_date.on_or_before(&row.performed_on)
                        && row.performed_on.on_or_before(&end_date)
                },
            Ghost(wanted),
        );
        Ok(rows)
    }

    /// The lookup from variation to muscle group for the variations of the
    /// muscle groups `muscle_group_ids` that the user `user_id` sees.
    pub fn get_varaition_ids(&self, user_id: i32, muscle_group_ids: &Vec<i32>) -> (r: Result<
        HashMap<i32, i32>,
        StoreError,
    >)
        ensures
            !self@.open ==> r is Err && r->Err_0 == StoreError::Unavailable,
            self@.open ==> (r matches Ok(lookup) && lookup@ == group_lookup(
                variation_groups(self@.variations, muscle_group_ids@, user_id as int),
            )),
    {
        if !self.open {
            return Err(StoreError::Unavailable);
        }
        let ghost wanted = |row: Variation| in_groups(row, muscle_group_ids@, user_id as int);
        let ghost pair = |row: Variation|
            VariationGroup { muscle_group_id: row.muscle_group_id, variation_id: row.id };
        let chosen = select(
            &self.variations,
            |row: &Variation| -> (b: bool)
                ensures
                    b == in_groups(*row, muscle_group_ids@, user_id as int)
                {
                    contains_id(muscle_group_ids, row.muscle_group_id) && row.owner.visible_to(
                        user_id,
                    )
                },
            Ghost(wanted),
        );
        let pairs = rewrite_pairs(&chosen);
        Ok(variation_lookup(&pairs))
    }

    /// The sets of the user `user_id` that were performed from `start_date`
    /// to `end_date`, both days included, for a variation of one of the
    /// muscle groups `muscle_group_ids` that the user sees.
    pub fn get_sets_for_musclegroups(
        &self,
        user_id: i32,
        muscle_group_ids: &Vec<i32>,
        start_date: Date,
        end_date: Date,
    ) -> (r: Result<Vec<WorkoutSet>, StoreError>)
        ensures
            !self@.open ==> r == Err::<Vec<WorkoutSet>, StoreError>(StoreError::Unavailable),
            self@.open ==> (r matches Ok(rows) && rows@ == sets_of_groups(
                self@.sets,
                self@.variations,
                user_id as int,
                muscle_group_ids@,
                start_date@,
                end_date@,
            )),
    {
        let lookup = match self.get_varaition_ids(user_id, muscle_group_ids) {
            Ok(lookup) => lookup,
            Err(_) => {
                return Err(StoreError::Unavailable);
            },
        };
        let ghost variations = self@.variations;
        let ghost groups = muscle_group_ids@;
        proof {
            assert forall|id: i32| #[trigger]
                lookup@.contains_key(id) <==> joins_groups(
                    variations,
                    groups,
                    user_id as int,
                    id as int,
                ) by {
                lemma_joins_groups(variations, groups, user_id as int, id);
            }
        }
        let ghost wanted = |row: WorkoutSet|
            row.user_id == user_id as int && start_date@ <= row.performed_on@ <= end_date@
                && joins_groups(variations, groups, user_id as int, row.variation_id as int);
        let rows = select(
            &self.sets,
            |row: &WorkoutSet| -> (b: bool)
                ensures
                    b == (row.user_id == user_id as int && start_date@ <= row.performed_on@
                        <= end_date@ && joins_groups(
                        variations,
                        groups,
                        user_id as int,
                        row.variation_id as int,
                    ))
                {
                    row.user_id == user_id && start_date.on_or_before(&row.performed_on)
                        && row.performed_on.on_or_before(&end_date) && lookup.contains_key(
                        &row.variation_id,
                    )
                },
            Ghost(wanted),
        );
        Ok(rows)
    }

    /// The session `session_id` of the user `user_id` with its sets and its
    /// cardio logs.
    ///
    /// Where the user has no session of that id, the error does not tell
    /// whether the id is unknown or another user's.
    pub fn get_session_details(&self, user_id: i32, session_id: i32) -> (r: Result<
        (WorkoutSession, Vec<WorkoutSet>, Vec<CardioLog>),
        StoreError,
    >)
        ensures
            !self@.open ==> r is Err && r->Err_0 == StoreError::Unavailable,
            self@.open ==> {
                let found = sessions_of(self@.sessions, user_id as int, session_id as int);
                &&& found.len() == 0 ==> r is Err && r->Err_0 == StoreError::NotFoundOrForbidden
                &&& found.len() > 0 ==> (r matches Ok(details) && details.0 == found[0]
                    && details.1@ == sets_of_session(
                    self@.sets,
                    user_id as int,
                    session_id as int,
                ) && details.2@ == cardio_logs_of_session(
                    self@.cardio_logs,
                    user_id as int,
                    session_id as int,
                ))
            },
    {
        if !self.open {
            return Err(StoreError::Unavailable);
        }
        let ghost mine = |row: WorkoutSession| owns_session(row, user_id as int, session_id as int);
        let found = first(
            &self.sessions,
            |row: &WorkoutSession| -> (b: bool)
                ensures
                    b == owns_session(*row, user_id as int, session_id as int)
                { row.id == session_id && row.user_id == user_id },
            Ghost(mine),
        );
        let session = match found {
            Some(session) => session,
            None => {
                return Err(StoreError::NotFoundOrForbidden);
            },
        };
        let ghost its_sets = |row: WorkoutSet|
            row.user_id == user_id as int && (row.workout_session_id matches Some(id) && id
                == session_id as int);
        let sets = select(
            &self.sets,
            |row: &WorkoutSet| -> (b: bool)
                ensures
                    b == (row.user_id == user_id as int && (row.workout_session_id matches Some(
                        id,
                    ) && id == session_id as int))
                {
                    row.user_id == user_id && match row.workout_session_id {
                        Some(id) => id == session_id,
                        None => false,
                    }
                },
            Ghost(its_sets),
        );
        let ghost its_logs = |row: CardioLog|
            row.user_id == user_id as int && (row.workout_session_id matches Some(id) && id
                == session_id as int);
        let logs = select(
            &self.cardio_logs,
            |row: &CardioLog| -> (b: bool)
                ensures
                    b == (row.user_id == user_id as int && (row.workout_session_id matches Some(
                        id,
                    ) && id == session_id as int))
                {
                    row.user_id == user_id && match row.workout_session_id {
                        Some(id) => id == session_id,
                        None => false,
                    }
                },
            Ghost(its_logs),
        );
        Ok((session, sets, logs))
    }

    /// The muscle groups that the user `user_id` sees: the user's own and the
    /// shared ones, in the order in which they were added.
    pub fn get_all_muscle_groups(&self, user_id: i32) -> (r: Result<Vec<MuscleGroup>, StoreError>)
        ensures
            !self@.open ==> r == Err::<Vec<MuscleGroup>, StoreError>(StoreError::Unavailable),
            self@.open ==> (r matches Ok(rows) && rows@ == visible_muscle_groups(
                self@.muscle_groups,
                user_id as int,
            )),
    {
        if !self.open {
            return Err(StoreError::Unavailable);
        }
        let ghost wanted = |row: MuscleGroup| row.owner.shows_to(user_id as int);
        let rows = select(
            &self.muscle_groups,
            |row: &MuscleGroup| -> (b: bool)
                ensures
                    b == row.owner.shows_to(user_id as int)
                { row.owner.visible_to(user_id) },
            Ghost(wanted),
        );
        Ok(rows)
    }

    /// The variations that the user `user_id` sees: the user's own and the
    /// shared ones, in the order in which they were added.
    pub fn get_all_variations(&self, user_id: i32) -> (r: Result<Vec<Variation>, StoreError>)
        ensures
            !self@.open ==> r == Err::<Vec<Variation>, StoreError>(StoreError::Unavailable),
            self@.open ==> (r matches Ok(rows) && rows@ == visible_variations(
                self@.variations,
                user_id as int,
            )),
    {
        if !self.open {
            return Err(StoreError::Unavailable);
        }
        let ghost wanted = |row: Variation| row.owner.shows_to(user_id as int);
        let rows = select(
            &self.variations,
            |row: &Variation| -> (b: bool)
                ensures
                    b == row.owner.shows_to(user_id as int)
                { row.owner.visible_to(user_id) },
            Ghost(wanted),
        );
        Ok(rows)
    }

    /// The cardio exercises that the user `user_id` sees: the user's own and the
    /// shared ones, in the order in which they were added.
    pub fn get_all_cardio_exercises(
        &self,
        user_id: i32,
    ) -> (r: Result<Vec<CardioExercise>, StoreError>)
        ensures
            !self@.open ==> r == Err::<Vec<CardioExercise>, StoreError>(StoreError::Unavailable),
            self@.open ==> (r matches Ok(rows) && rows@ == visible_cardio_exercises(
                self@.cardio_exercises,
                user_id as int,
            )),
    {
        if !self.open {
            return Err(StoreError::Unavailable);
        }
        let ghost wanted = |row: CardioExercise| row.owner.shows_to(user_id as int);
        let rows = select(
            &self.cardio_exercises,
            |row: &CardioExercise| -> (b: bool)
                ensures
                    b == row.owner.shows_to(user_id as int)
                { row.owner.visible_to(user_id) },
            Ghost(wanted),
        );
        Ok(rows)
    }
}

/// Each variation with its muscle group.
fn rewrite_pairs(rows: &Vec<Variation>) -> (r: Vec<VariationGroup>)
    ensures
        r@ == rows@.map_values(
            |row: Variation|
                VariationGroup { muscle_group_id: row.muscle_group_id, variation_id: row.id },
        ),
{
    let mut out: Vec<VariationGroup> = Vec::new();
    let mut i: usize = 0;
    while i < rows.len()
        invariant
            i <= rows.len(),
            out@ == rows@.take(i as int).map_values(
                |row: Variation|
                    VariationGroup { muscle_group_id: row.muscle_group_id, variation_id: row.id },
            ),
        decreases rows.len() - i,
    {
        out.push(
            VariationGroup { muscle_group_id: rows[i].muscle_group_id, variation_id: rows[i].id },
        );
        proof {
            assert(rows@.take(i + 1).map_values(
                |row: Variation|
                    VariationGroup { muscle_group_id: row.muscle_group_id, variation_id: row.id },
            ) =~= rows@.take(i as int).map_values(
                |row: Variation|
                    VariationGroup { muscle_group_id: row.muscle_group_id, variation_id: row.id },
            ).push(
                VariationGroup {
                    muscle_group_id: rows@[i as int].muscle_group_id,
                    variation_id: rows@[i as int].id,
                },
            ));
        }
        i = i + 1;
    }
    proof {
        assert(rows@.take(i as int) =~= rows@);
    }
    out
}

/// The lookup of the variations of `groups` that `user_id` sees knows a
/// variation exactly where one of those variations has its id.
pub proof fn lemma_joins_groups(
    variations: Seq<Variation>,
    groups: Seq<i32>,
    user_id: int,
    variation_id: i32,
)
    ensures
        group_lookup(variation_groups(variations, groups, user_id)).contains_key(variation_id)
            <==> joins_groups(variations, groups, user_id, variation_id as int),
{
    let wanted = |row: Variation| in_groups(row, groups, user_id);
    let chosen = variations.filter(wanted);
    let pairs = variation_groups(variations, groups, user_id);
    lemma_lookup_domain(pairs, variation_id);
    if joins_groups(variations, groups, user_id, variation_id as int) {
        let k = choose|k: int|
            0 <= k < variations.len() && (#[trigger] variations[k]).id == variation_id
                && in_groups(variations[k], groups, user_id);
        variations.lemma_filter_contains(wanted, k);
        let n = choose|n: int| 0 <= n < chosen.len() && chosen[n] == variations[k];
        assert(pairs[n].variation_id == variation_id);
    }
    if group_lookup(pairs).contains_key(variation_id) {
        let n = choose|n: int|
            0 <= n < pairs.len() && (#[trigger] pairs[n]).variation_id == variation_id;
        variations.lemma_filter_pred(wanted, n);
        assert(chosen.contains(chosen[n]));
        variations.lemma_filter_contains_rev(wanted, chosen[n]);
        let k = choose|k: int| 0 <= k < variations.len() && variations[k] == chosen[n];
        assert(variations[k].id == variation_id);
    }
}

/// No two rows of a table have the same id, and the id that a table gives
/// out next is the id of none of its rows.
pub proof fn lemma_ids_are_unique(store: StoreView)
    requires
        store.wf(),
    ensures
        forall|i: int, j: int|
            0 <= i < j < store.sessions.len() ==> store.sessions[i].id != store.sessions[j].id,
        forall|i: int, j: int| 0 <= i < j < store.sets.len() ==> store.sets[i].id != store.sets[j].id,
        forall|i: int, j: int|
            0 <= i < j < store.cardio_logs.len() ==> store.cardio_logs[i].id
                != store.cardio_logs[j].id,
        forall|i: int, j: int|
            0 <= i < j < store.muscle_groups.len() ==> store.muscle_groups[i].id
                != store.muscle_groups[j].id,
        forall|i: int, j: int|
            0 <= i < j < store.variations.len() ==> store.variations[i].id
                != store.variations[j].id,
        forall|i: int, j: int|
            0 <= i < j < store.cardio_exercises.len() ==> store.cardio_exercises[i].id
                != store.cardio_exercises[j].id,
        forall|i: int| 0 <= i < store.sessions.len() ==> store.sessions[i].id < store.next_session_id,
        forall|i: int| 0 <= i < store.sets.len() ==> store.sets[i].id < store.next_set_id,
        forall|i: int|
            0 <= i < store.cardio_logs.len() ==> store.cardio_logs[i].id < store.next_cardio_log_id,
{
    let session_ids = store.sessions.map_values(|row: WorkoutSession| row.id as int);
    let set_ids = store.sets.map_values(|row: WorkoutSet| row.id as int);
    let log_ids = store.cardio_logs.map_values(|row: CardioLog| row.id as int);
    let group_ids = store.muscle_groups.map_values(|row: MuscleGroup| row.id as int);
    let variation_ids = store.variations.map_values(|row: Variation| row.id as int);
    let exercise_ids = store.cardio_exercises.map_values(|row: CardioExercise| row.id as int);
    assert forall|i: int, j: int| 0 <= i < j < store.sessions.len() implies store.sessions[i].id
        != store.sessions[j].id by {
        assert(session_ids[i] < session_ids[j]);
    }
    assert forall|i: int, j: int| 0 <= i < j < store.sets.len() implies store.sets[i].id
        != store.sets[j].id by {
        assert(set_ids[i] < set_ids[j]);
    }
    assert forall|i: int, j: int| 0 <= i < j < store.cardio_logs.len() implies store.cardio_logs[i].id
        != store.cardio_logs[j].id by {
        assert(log_ids[i] < log_ids[j]);
    }
    assert forall|i: int, j: int|
        0 <= i < j < store.muscle_groups.len() implies store.muscle_groups[i].id
        != store.muscle_groups[j].id by {
        assert(group_ids[i] < group_ids[j]);
    }
    assert forall|i: int, j: int| 0 <= i < j < store.variations.len() implies store.variations[i].id
        != store.variations[j].id by {
        assert(variation_ids[i] < variation_ids[j]);
    }
    assert forall|i: int, j: int|
        0 <= i < j < store.cardio_exercises.len() implies store.cardio_exercises[i].id
        != store.cardio_exercises[j].id by {
        assert(exercise_ids[i] < exercise_ids[j]);
    }
    assert forall|i: int| 0 <= i < store.sessions.len() implies store.sessions[i].id
        < store.next_session_id by {
        assert(session_ids[i] < store.next_session_id);
    }
    assert forall|i: int| 0 <= i < store.sets.len() implies store.sets[i].id
        < store.next_set_id by {
        assert(set_ids[i] < store.next_set_id);
    }
    assert forall|i: int| 0 <= i < store.cardio_logs.len() implies store.cardio_logs[i].id
        < store.next_cardio_log_id by {
        assert(log_ids[i] < store.next_cardio_log_id);
    }
}

/// A session of another user is to its id what no session is. Where every
/// session with the id `id` belongs to someone other than `user_id`, the
/// user has no session of that id, and updating or deleting it changes no
/// row: both calls fail exactly as they do for an id that no session has.
pub proof fn lemma_foreign_session_is_absent(
    rows: Seq<WorkoutSession>,
    user_id: int,
    id: int,
    data: UpdateWorkoutSession,
)
    requires
        forall|i: int| 0 <= i < rows.len() && rows[i].id == id ==> rows[i].user_id != user_id,
    ensures
        sessions_of(rows, user_id, id).len() == 0,
        sessions_without(rows, user_id, id) == rows,
        sessions_patched(rows, user_id, id, data) == rows,
{
    let mine = |row: WorkoutSession| owns_session(row, user_id, id);
    let others = |row: WorkoutSession| !owns_session(row, user_id, id);
    let change = |row: WorkoutSession|
        if owns_session(row, user_id, id) {
            patched_session(row, data)
        } else {
            row
        };
    rows.lemma_all_neg_filter_empty(mine);
    lemma_split(rows, mine, others, change);
}

/// What a user reads is the user's own: every session, set and cardio log
/// that a read hands out belongs to the user who asked, and every catalog
/// row is the user's or shared.
pub proof fn lemma_reads_are_scoped(
    store: StoreView,
    user_id: int,
    year: int,
    month: int,
    variation_id: int,
    groups: Seq<i32>,
    session_id: int,
    start: int,
    end: int,
)
    ensures
        forall|i: int|
            0 <= i < sessions_in_month(store.sessions, user_id, year, month).len()
                ==> (#[trigger] sessions_in_month(store.sessions, user_id, year, month)[i]).user_id
                == user_id,
        forall|i: int|
            0 <= i < sets_of_variation(store.sets, user_id, variation_id, start, end).len()
                ==> (#[trigger] sets_of_variation(
                store.sets,
                user_id,
                variation_id,
                start,
                end,
            )[i]).user_id == user_id,
        forall|i: int|
            0 <= i < sets_of_groups(store.sets, store.variations, user_id, groups, start, end).len()
                ==> (#[trigger] sets_of_groups(
                store.sets,
                store.variations,
                user_id,
                groups,
                start,
                end,
            )[i]).user_id == user_id,
        forall|i: int|
            0 <= i < sessions_of(store.sessions, user_id, session_id).len() ==> (#[trigger] sessions_of(
                store.sessions,
                user_id,
                session_id,
            )[i]).user_id == user_id,
        forall|i: int|
            0 <= i < sets_of_session(store.sets, user_id, session_id).len()
                ==> (#[trigger] sets_of_session(store.sets, user_id, session_id)[i]).user_id
                == user_id,
        forall|i: int|
            0 <= i < cardio_logs_of_session(store.cardio_logs, user_id, session_id).len()
                ==> (#[trigger] cardio_logs_of_session(
                store.cardio_logs,
                user_id,
                session_id,
            )[i]).user_id == user_id,
        forall|i: int|
            0 <= i < visible_muscle_groups(store.muscle_groups, user_id).len()
                ==> (#[trigger] visible_muscle_groups(store.muscle_groups, user_id)[i]).owner.shows_to(
                user_id,
            ),
        forall|i: int|
            0 <= i < visible_variations(store.variations, user_id).len()
                ==> (#[trigger] visible_variations(store.variations, user_id)[i]).owner.shows_to(
                user_id,
            ),
        forall|i: int|
            0 <= i < visible_cardio_exercises(store.cardio_exercises, user_id).len()
                ==> (#[trigger] visible_cardio_exercises(
                store.cardio_exercises,
                user_id,
            )[i]).owner.shows_to(user_id),
{
    broadcast use Seq::lemma_filter_pred;
}

} // verus!
