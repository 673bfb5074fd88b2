//! What the write path answers, and what it has done to the store when it
//! answers so.
//!
//! Each request has one predicate here. It says, for a store before and
//! after the request, which answer goes with which change: the handlers and
//! the services state their contracts with it.

use crate::api::workouts::{CardioSet, StrengthSet};
use crate::calendar::Date;
use crate::db::model::{
    NewCardioExercise, NewCardioLog, NewMuscleGroup, NewVariation, NewWorkoutSession,
    NewWorkoutSet, UpdateCardioLog, UpdateWorkoutSession, UpdateWorkoutSet,
};
use crate::db::workouts::{
    cardio_exercise_added, cardio_logs_of, cardio_logs_patched, cardio_logs_without, error_text,
    muscle_group_added, session_added, sessions_of, sessions_patched, sessions_without, sets_of,
    sets_patched, sets_without, stored_cardio_log, stored_set, variation_added, Entity,
    StoreError, StoreView,
};
use vstd::prelude::*;

verus! {

/// What an answer of the write path says.
pub ghost struct Answer {
    pub user_id: int,
    pub id: Option<i32>,
    pub success: bool,
    pub message: Seq<char>,
}

/// The answer to a request that was carried out.
pub open spec fn done(user_id: int, id: Option<i32>, message: Seq<char>) -> Answer {
    Answer { user_id, id, success: true, message }
}

/// The answer to a request that failed with `error`.
pub open spec fn failed(user_id: int, error: StoreError, entity: Entity) -> Answer {
    Answer { user_id, id: None, success: false, message: error_text(error, entity) }
}

/// The session to store for a request.
pub open spec fn new_session(request: crate::api::workouts::WorkoutSession) -> NewWorkoutSession {
    NewWorkoutSession {
        user_id: request.user_id,
        date: request.date,
        title: request.title,
        notes: request.notes,
        start_time: request.start_time,
        end_time: request.end_time,
    }
}

/// The set to store for a request.
pub open spec fn new_set(request: StrengthSet) -> NewWorkoutSet {
    NewWorkoutSet {
        user_id: request.user_id,
        workout_session_id: request.workout_session_id,
        variation_id: request.variation_id,
        weight_bits: request.weight_bits,
        reps: request.reps,
        performed_on: request.performed_on,
    }
}

/// The cardio log to store for a request made on the day `performed_on`.
pub open spec fn new_cardio_log(request: CardioSet, performed_on: Date) -> NewCardioLog {
    NewCardioLog {
        user_id: request.user_id,
        workout_session_id: request.workout_session_id,
        cardio_exercise_id: request.cardio_exercise_id,
        duration_minutes: request.duration,
        performed_on,
    }
}

/// Adding a session: an open store with an id left stores it under the next
/// id and answers with that id; otherwise nothing changes.
pub open spec fn session_add_outcome(
    before: StoreView,
    after: StoreView,
    session: NewWorkoutSession,
    answer: Answer,
) -> bool {
    if before.open && before.next_session_id < i32::MAX {
        &&& session_added(before, after, session)
        &&& answer == done(
            session.user_id as int,
            Some(before.next_session_id as i32),
            "Session Added"@,
        )
    } else {
        &&& after == before
        &&& answer == failed(session.user_id as int, StoreError::Unavailable, Entity::Session)
    }
}

/// Adding a set: an open store with an id left stores it as it is under the
/// next id; otherwise nothing changes. The answer names no id.
pub open spec fn set_add_outcome(
    before: StoreView,
    after: StoreView,
    set: NewWorkoutSet,
    answer: Answer,
) -> bool {
    if before.open && before.next_set_id < i32::MAX {
        &&& after == (StoreView {
            sets: before.sets.push(stored_set(set, before.next_set_id)),
            next_set_id: before.next_set_id + 1,
            ..before
        })
        &&& answer == done(set.user_id as int, None, "Set Added"@)
    } else {
        &&& after == before
        &&& answer == failed(set.user_id as int, StoreError::Unavailable, Entity::StrengthSet)
    }
}

/// Adding a cardio log: an open store with an id left stores it as it is
/// under the next id; otherwise nothing changes. The answer names no id.
pub open spec fn cardio_log_add_outcome(
    before: StoreView,
    after: StoreView,
    log: NewCardioLog,
    answer: Answer,
) -> bool {
    if before.open && before.next_cardio_log_id < i32::MAX {
        &&& after == (StoreView {
            cardio_logs: before.cardio_logs.push(stored_cardio_log(log, before.next_cardio_log_id)),
            next_cardio_log_id: before.next_cardio_log_id + 1,
            ..before
        })
        &&& answer == done(log.user_id as int, None, "Cardio Log Added"@)
    } else {
        &&& after == before
        &&& answer == failed(log.user_id as int, StoreError::Unavailable, Entity::CardioLog)
    }
}

/// Adding a muscle group: an open store with an id left stores it for its creator
/// under the next id and answers with that id; otherwise nothing changes.
pub open spec fn muscle_group_add_outcome(
    before: StoreView,
    after: StoreView,
    data: NewMuscleGroup,
    answer: Answer,
) -> bool {
    if before.open && before.next_muscle_group_id < i32::MAX {
        &&& muscle_group_added(before, after, data)
        &&& answer == done(
            data.user_id as int,
            Some(before.next_muscle_group_id as i32),
            "Muscle Group Added"@,
        )
    } else {
        &&& after == before
        &&& answer == failed(data.user_id as int, StoreError::Unavailable, Entity::Catalog)
    }
}

/// Adding a variation: an open store with an id left stores it for its creator
/// under the next id and answers with that id; otherwise nothing changes.
pub open spec fn variation_add_outcome(
    before: StoreView,
    after: StoreView,
    data: NewVariation,
    answer: Answer,
) -> bool {
    if before.open && before.next_variation_id < i32::MAX {
        &&& variation_added(before, after, data)
        &&& answer == done(
            data.user_id as int,
            Some(before.next_variation_id as i32),
            "Variation Added"@,
        )
    } else {
        &&& after == before
        &&& answer == failed(data.user_id as int, StoreError::Unavailable, Entity::Catalog)
    }
}

/// Adding a cardio exercise: an open store with an id left stores it for its creator
/// under the next id and answers with that id; otherwise nothing changes.
pub open spec fn cardio_exercise_add_outcome(
    before: StoreView,
    after: StoreView,
    data: NewCardioExercise,
    answer: Answer,
) -> bool {
    if before.open && before.next_cardio_exercise_id < i32::MAX {
        &&& cardio_exercise_added(before, after, data)
        &&& answer == done(
            data.user_id as int,
            Some(before.next_cardio_exercise_id as i32),
            "Cardio Exercise Added"@,
        )
    } else {
        &&& after == before
        &&& answer == failed(data.user_id as int, StoreError::Unavailable, Entity::Catalog)
    }
}

/// Changing the session `session_id` of the user `user_id`: where the user has
/// such a session, `data` is applied to it; where not, nothing changes, and
/// the answer is the same whether the session is another user's or does not
/// exist.
pub open spec fn session_update_outcome(
    before: StoreView,
    after: StoreView,
    user_id: int,
    session_id: int,
    data: UpdateWorkoutSession,
    answer: Answer,
) -> bool {
    if !before.open {
        &&& after == before
        &&& answer == failed(user_id, StoreError::Unavailable, Entity::Session)
    } else if sessions_of(before.sessions, user_id, session_id).len() == 0 {
        &&& after == before
        &&& answer == failed(user_id, StoreError::NotFoundOrForbidden, Entity::Session)
    } else {
        &&& after == (StoreView {
            sessions: sessions_patched(before.sessions, user_id, session_id, data),
            ..before
        })
        &&& answer == done(user_id, Some(session_id as i32), "Session Updated"@)
    }
}

/// Deleting the session `session_id` of the user `user_id`: where the user has
/// such a session, it is gone; where not, nothing changes, and the answer is
/// the same whether the session is another user's or does not exist.
pub open spec fn session_delete_outcome(
    before: StoreView,
    after: StoreView,
    user_id: int,
    session_id: int,
    answer: Answer,
) -> bool {
    if !before.open {
        &&& after == before
        &&& answer == failed(user_id, StoreError::Unavailable, Entity::Session)
    } else if sessions_of(before.sessions, user_id, session_id).len() == 0 {
        &&& after == before
        &&& answer == failed(user_id, StoreError::NotFoundOrForbidden, Entity::Session)
    } else {
        &&& after == (StoreView {
            sessions: sessions_without(before.sessions, user_id, session_id),
            ..before
        })
        &&& answer == done(user_id, Some(session_id as i32), "Session Deleted"@)
    }
}

/// Changing the set `set_id` of the user `user_id`: where the user has
/// such a set, `data` is applied to it; where not, nothing changes, and
/// the answer is the same whether the set is another user's or does not
/// exist.
pub open spec fn set_update_outcome(
    before: StoreView,
    after: StoreView,
    user_id: int,
    set_id: int,
    data: UpdateWorkoutSet,
    answer: Answer,
) -> bool {
    if !before.open {
        &&& after == before
        &&& answer == failed(user_id, StoreError::Unavailable, Entity::StrengthSet)
    } else if sets_of(before.sets, user_id, set_id).len() == 0 {
        &&& after == before
        &&& answer == failed(user_id, StoreError::NotFoundOrForbidden, Entity::StrengthSet)
    } else {
        &&& after == (StoreView {
            sets: sets_patched(before.sets, user_id, set_id, data),
            ..before
        })
        &&& answer == done(user_id, Some(set_id as i32), "Set Updated"@)
    }
}

/// Deleting the set `set_id` of the user `user_id`: where the user has
/// such a set, it is gone; where not, nothing changes, and the answer is
/// the same whether the set is another user's or does not exist.
pub open spec fn set_delete_outcome(
    before: StoreView,
    after: StoreView,
    user_id: int,
    set_id: int,
    answer: Answer,
) -> bool {
    if !before.open {
        &&& after == before
        &&& answer == failed(user_id, StoreError::Unavailable, Entity::StrengthSet)
    } else if sets_of(before.sets, user_id, set_id).len() == 0 {
        &&& after == before
        &&& answer == failed(user_id, StoreError::NotFoundOrForbidden, Entity::StrengthSet)
    } else {
        &&& after == (StoreView {
            sets: sets_without(before.sets, user_id, set_id),
            ..before
        })
        &&& answer == done(user_id, Some(set_id as i32), "Set Deleted"@)
    }
}

/// Changing the cardio log `log_id` of the user `user_id`: where the user has
/// such a cardio log, `data` is applied to it; where not, nothing changes, and
/// the answer is the same whether the cardio log is another user's or does not
/// exist.
pub open spec fn cardio_log_update_outcome(
    before: StoreView,
    after: StoreView,
    user_id: int,
    log_id: int,
    data: UpdateCardioLog,
    answer: Answer,
) -> bool {
    if !before.open {
        &&& after == before
        &&& answer == failed(user_id, StoreError::Unavailable, Entity::CardioLog)
    } else if cardio_logs_of(before.cardio_logs, user_id, log_id).len() == 0 {
        &&& after == before
        &&& answer == failed(user_id, StoreError::NotFoundOrForbidden, Entity::CardioLog)
    } else {
        &&& after == (StoreView {
            cardio_logs: cardio_logs_patched(before.cardio_logs, user_id, log_id, data),
            ..before
        })
        &&& answer == done(user_id, Some(log_id as i32), "Cardio Log Updated"@)
    }
}

/// Deleting the cardio log `log_id` of the user `user_id`: where the user has
/// such a cardio log, it is gone; where not, nothing changes, and the answer is
/// the same whether the cardio log is another user's or does not exist.
pub open spec fn cardio_log_delete_outcome(
    before: StoreView,
    after: StoreView,
    user_id: int,
    log_id: int,
    answer: Answer,
) -> bool {
    if !before.open {
        &&& after == before
        &&& answer == failed(user_id, StoreError::Unavailable, Entity::CardioLog)
    } else if cardio_logs_of(before.cardio_logs, user_id, log_id).len() == 0 {
        &&& after == before
        &&& answer == failed(user_id, StoreError::NotFoundOrForbidden, Entity::CardioLog)
    } else {
        &&& after == (StoreView {
            cardio_logs: cardio_logs_without(before.cardio_logs, user_id, log_id),
            ..before
        })
        &&& answer == done(user_id, Some(log_id as i32), "Cardio Log Deleted"@)
    }
}

/// The answer to a session of another user is the answer to a session that
/// does not exist: where every session with the id `session_id` belongs to
/// someone else, updating and deleting it fail with one and the same answer
/// and leave the store as it was, as they do where no session has that id.
pub proof fn lemma_foreign_session_answers(
    store: StoreView,
    user_id: int,
    session_id: int,
    data: UpdateWorkoutSession,
)
    requires
        store.open,
        forall|i: int|
            0 <= i < store.sessions.len() && store.sessions[i].id == session_id
                ==> store.sessions[i].user_id != user_id,
    ensures
        session_update_outcome(
            store,
            store,
            user_id,
            session_id,
            data,
            failed(user_id, StoreError::NotFoundOrForbidden, Entity::Session),
        ),
        session_delete_outcome(
            store,
            store,
            user_id,
            session_id,
            failed(user_id, StoreError::NotFoundOrForbidden, Entity::Session),
        ),
        forall|after: StoreView, answer: Answer|
            session_update_outcome(store, after, user_id, session_id, data, answer) ==> after
                == store && answer == failed(
                user_id,
                StoreError::NotFoundOrForbidden,
                Entity::Session,
            ),
        forall|after: StoreView, answer: Answer|
            session_delete_outcome(store, after, user_id, session_id, answer) ==> after == store
                && answer == failed(user_id, StoreError::NotFoundOrForbidden, Entity::Session),
{
    crate::db::workouts::lemma_foreign_session_is_absent(store.sessions, user_id, session_id, data);
}

} // verus!
