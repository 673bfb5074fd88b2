//! Workout levels: how long a user trained on each day, as one of four grades.
//!
//! The result is sparse. A day has an entry where time was logged on it: a
//! day without a session has none, and neither has a day whose sessions add
//! up to no time at all.

use crate::calendar::{minutes_between, Date};
use crate::grouping::{
    distinct, lemma_distinct_members, lemma_distinct_push, lemma_filter_keeps_apart, FirstSeen,
};
use crate::db::model::WorkoutSession;
use vstd::prelude::*;

verus! {

/// Fewest minutes of a day at level 1.
pub const LEVEL_1: i64 = 30;

/// Fewest minutes of a day at level 2.
pub const LEVEL_2: i64 = 60;

/// Fewest minutes of a day at level 3.
pub const LEVEL_3: i64 = 90;

/// The level of a day on which `minutes` minutes were logged: a step
/// function whose steps are at `LEVEL_1`, `LEVEL_2` and `LEVEL_3`, each
/// bound belonging to the higher level.
pub open spec fn level_of(minutes: int) -> int {
    if minutes >= LEVEL_3 {
        3
    } else if minutes >= LEVEL_2 {
        2
    } else if minutes >= LEVEL_1 {
        1
    } else {
        0
    }
}

/// The level of a day on which `minutes` minutes were logged.
pub fn workout_level(minutes: i64) -> (level: u8)
    ensures
        level == level_of(minutes as int),
        minutes < 30 ==> level == 0,
        30 <= minutes < 60 ==> level == 1,
        60 <= minutes < 90 ==> level == 2,
        90 <= minutes ==> level == 3,
{
    if minutes >= LEVEL_3 {
        3
    } else if minutes >= LEVEL_2 {
        2
    } else if minutes >= LEVEL_1 {
        1
    } else {
        0
    }
}

/// The level of a day's total, where the total was summed without a bound.
fn level_of_total(minutes: i128) -> (level: u8)
    ensures
        level == level_of(minutes as int),
{
    let bounded: i64 = if minutes > i64::MAX as i128 {
        i64::MAX
    } else if minutes < i64::MIN as i128 {
        i64::MIN
    } else {
        minutes as i64
    };
    workout_level(bounded)
}

/// What a [`WorkoutLevels`] entry stands for.
pub ghost struct DayLevel {
    pub day: int,
    pub level: int,
}

/// The level of one day.
#[derive(Clone, Copy, Debug, PartialEq, Eq, Structural)]
pub struct WorkoutLevels {
    pub date: Date,
    pub level: u8,
}

impl View for WorkoutLevels {
    type V = DayLevel;

    open spec fn view(&self) -> DayLevel {
        DayLevel { day: self.date@, level: self.level as int }
    }
}

/// The minutes of one session, from its start to its end; negative where it
/// ends before it starts.
pub open spec fn session_minutes(session: WorkoutSession) -> int {
    minutes_between(session.start_time@, session.end_time@)
}

/// The minutes of all sessions of `sessions` on the day with number `day`.
pub open spec fn day_minutes(sessions: Seq<WorkoutSession>, day: int) -> int
    decreases sessions.len(),
{
    if sessions.len() == 0 {
        0
    } else {
        day_minutes(sessions.drop_last(), day) + if sessions.last().date@ == day {
            session_minutes(sessions.last())
        } else {
            0
        }
    }
}

/// The day of each session, in the order of the sessions.
pub open spec fn session_days(sessions: Seq<WorkoutSession>) -> Seq<int> {
    Seq::new(sessions.len(), |i: int| sessions[i].date@)
}

/// The days on which time was logged: the days of the sessions, each once and
/// in the order in which the days first occur, but for the days whose minutes
/// add up to 0.
pub open spec fn logged_days(sessions: Seq<WorkoutSession>) -> Seq<int> {
    distinct(session_days(sessions)).filter(|day: int| day_minutes(sessions, day) != 0)
}

/// One entry for each day on which time was logged, in the order in which
/// the days first occur, with the level of the day's total minutes. A day
/// without a session has no entry, and a day whose minutes add up to 0 has
/// none.
pub open spec fn daily_levels(sessions: Seq<WorkoutSession>) -> Seq<DayLevel> {
    logged_days(sessions).map_values(
        |day: int| DayLevel { day, level: level_of(day_minutes(sessions, day)) },
    )
}

/// What the entries of a result stand for, in order.
pub open spec fn levels_view(levels: Seq<WorkoutLevels>) -> Seq<DayLevel> {
    levels.map_values(|entry: WorkoutLevels| entry@)
}

/// No minutes are counted for a day on which no session lies.
proof fn lemma_day_without_session(sessions: Seq<WorkoutSession>, day: int)
    requires
        !session_days(sessions).contains(day),
    ensures
        day_minutes(sessions, day) == 0,
    decreases sessions.len(),
{
    if sessions.len() > 0 {
        let before = sessions.drop_last();
        assert(session_days(sessions)[sessions.len() - 1] == sessions.last().date@);
        assert forall|i: int| 0 <= i < before.len() implies session_days(before)[i] != day by {
            assert(session_days(sessions)[i] == before[i].date@);
        }
        lemma_day_without_session(before, day);
    }
}

/// Every day of [`daily_levels`] is the day of a session, has minutes that do
/// not add up to 0, and occurs once; and every session on a day whose minutes
/// do not add up to 0 finds its day among them.
pub proof fn lemma_daily_levels_days(sessions: Seq<WorkoutSession>)
    ensures
        daily_levels(sessions).len() <= sessions.len(),
        forall|i: int, j: int|
            0 <= i < j < daily_levels(sessions).len() ==> daily_levels(sessions)[i].day
                != daily_levels(sessions)[j].day,
        forall|i: int|
            0 <= i < daily_levels(sessions).len() ==> day_minutes(
                sessions,
                (#[trigger] daily_levels(sessions)[i]).day,
            ) != 0,
        forall|i: int|
            0 <= i < daily_levels(sessions).len() ==> exists|k: int|
                0 <= k < sessions.len() && sessions[k].date@ == #[trigger] daily_levels(
                    sessions,
                )[i].day,
        forall|k: int|
            0 <= k < sessions.len() && day_minutes(sessions, sessions[k].date@) != 0
                ==> exists|i: int|
                0 <= i < daily_levels(sessions).len() && daily_levels(sessions)[i].day
                    == #[trigger] sessions[k].date@,
{
    let days = session_days(sessions);
    let d = distinct(days);
    let logged = |day: int| day_minutes(sessions, day) != 0;
    let kept = logged_days(sessions);
    lemma_distinct_members(days);
    lemma_filter_keeps_apart(d, logged);
    d.lemma_filter_len(logged);
    assert forall|i: int| 0 <= i < daily_levels(sessions).len() implies day_minutes(
        sessions,
        (#[trigger] daily_levels(sessions)[i]).day,
    ) != 0 by {
        d.lemma_filter_pred(logged, i);
    }
    assert forall|i: int| 0 <= i < daily_levels(sessions).len() implies exists|k: int|
        0 <= k < sessions.len() && sessions[k].date@ == #[trigger] daily_levels(sessions)[i].day by {
        assert(kept.contains(kept[i]));
        d.lemma_filter_contains_rev(logged, kept[i]);
        assert(days.contains(kept[i]));
        let k = choose|k: int| 0 <= k < days.len() && days[k] == kept[i];
        assert(sessions[k].date@ == kept[i]);
    }
    assert forall|k: int|
        0 <= k < sessions.len() && day_minutes(sessions, sessions[k].date@) != 0 implies exists|
        i: int,
    |
        0 <= i < daily_levels(sessions).len() && daily_levels(sessions)[i].day
            == #[trigger] sessions[k].date@ by {
        assert(days[k] == sessions[k].date@);
        assert(days.contains(sessions[k].date@));
        assert(d.contains(sessions[k].date@));
        let n = choose|n: int| 0 <= n < d.len() && d[n] == sessions[k].date@;
        d.lemma_filter_contains(logged, n);
        let i = choose|i: int| 0 <= i < kept.len() && kept[i] == sessions[k].date@;
        assert(daily_levels(sessions)[i].day == sessions[k].date@);
    }
}

/// The level of each day on which time was logged in `sessions`.
///
/// The entries come in the order in which the days first occur among the
/// sessions. A day's minutes are the whole minutes of each of its sessions,
/// added up; a day whose minutes add up to 0 is left out.
pub fn workout_levels(sessions: &Vec<WorkoutSession>) -> (r: Vec<WorkoutLevels>)
    ensures
        levels_view(r@) == daily_levels(sessions@),
{
    let mut seen = FirstSeen::new();
    let mut dates: Vec<Date> = Vec::new();
    let mut totals: Vec<i128> = Vec::new();
    let mut j: usize = 0;
    proof {
        assert(session_days(sessions@.take(0)) =~= Seq::<int>::empty());
    }
    while j < sessions.len()
        invariant
            j <= sessions.len(),
            seen.wf(),
            seen@ == distinct(session_days(sessions@.take(j as int))),
            dates.len() == seen@.len(),
            totals.len() == seen@.len(),
            forall|i: int| 0 <= i < dates.len() ==> #[trigger] dates[i]@ == seen@[i],
            forall|i: int|
                0 <= i < totals.len() ==> #[trigger] totals[i] == day_minutes(
                    sessions@.take(j as int),
                    seen@[i],
                ),
            forall|i: int|
                0 <= i < totals.len() ==> -300_000_000_000 * j <= #[trigger] totals[i]
                    <= 300_000_000_000 * j,
        decreases sessions.len() - j,
    {
        let session = &sessions[j];
        let minutes: i64 = session.start_time.minutes_until(&session.end_time);
        let day: i32 = session.date.days();
        let ghost before = sessions@.take(j as int);
        let ghost upto = sessions@.take(j + 1);
        let ghost old_seen = seen@;
        proof {
            assert(upto.drop_last() =~= before);
            assert(upto.last() == sessions@[j as int]);
            assert(session_days(upto) =~= session_days(before).push(day as int));
            lemma_distinct_push(session_days(before), day as int);
            lemma_distinct_members(session_days(before));
        }
        let known: usize = seen.len();
        let slot: usize = seen.slot(day);
        if slot == known {
            proof {
                lemma_day_without_session(before, day as int);
            }
            dates.push(session.date);
            totals.push(minutes as i128);
        } else {
            let sum: i128 = totals[slot] + minutes as i128;
            totals.set(slot, sum);
        }
        proof {
            assert forall|i: int| 0 <= i < totals.len() implies #[trigger] totals[i]
                == day_minutes(upto, seen@[i]) by {
                if i < old_seen.len() && i != slot {
                    assert(old_seen[i] != day as int) by {
                        if old_seen.contains(day as int) {
                            assert(old_seen[slot as int] == day as int);
                        } else {
                            assert(old_seen.contains(old_seen[i]));
                        }
                    }
                }
            }
        }
        j = j + 1;
    }
    proof {
        assert(sessions@.take(j as int) =~= sessions@);
    }
    let ghost logged = |day: int| day_minutes(sessions@, day) != 0;
    let ghost entry = |day: int| DayLevel { day, level: level_of(day_minutes(sessions@, day)) };
    let mut out: Vec<WorkoutLevels> = Vec::new();
    let mut i: usize = 0;
    proof {
        assert(seen@.take(0) =~= Seq::<int>::empty());
        Seq::<int>::empty().lemma_filter_len(logged);
        assert(levels_view(out@) =~= seen@.take(0).filter(logged).map_values(entry));
    }
    while i < dates.len()
        invariant
            i <= dates.len(),
            dates.len() == seen@.len(),
            totals.len() == seen@.len(),
            seen@ == distinct(session_days(sessions@)),
            logged == |day: int| day_minutes(sessions@, day) != 0,
            entry == |day: int| (DayLevel { day, level: level_of(day_minutes(sessions@, day)) }),
            forall|k: int| 0 <= k < dates.len() ==> #[trigger] dates[k]@ == seen@[k],
            forall|k: int|
                0 <= k < totals.len() ==> #[trigger] totals[k] == day_minutes(sessions@, seen@[k]),
            levels_view(out@) == seen@.take(i as int).filter(logged).map_values(entry),
        decreases dates.len() - i,
    {
        proof {
            seen@.take(i as int).lemma_filter_push(seen@[i as int], logged);
            assert(seen@.take(i + 1) =~= seen@.take(i as int).push(seen@[i as int]));
        }
        if totals[i] != 0 {
            let ghost before = out@;
            let ghost kept = seen@.take(i as int).filter(logged);
            let level: u8 = level_of_total(totals[i]);
            out.push(WorkoutLevels { date: dates[i], level });
            proof {
                assert(logged(seen@[i as int]));
                assert(out@.last()@ == entry(seen@[i as int]));
                assert(levels_view(out@) =~= levels_view(before).push(out@.last()@));
                assert(kept.push(seen@[i as int]).map_values(entry) =~= kept.map_values(entry).push(
                    entry(seen@[i as int]),
                ));
            }
        }
        i = i + 1;
    }
    proof {
        assert(seen@.take(i as int) =~= seen@);
    }
    out
}

} // verus!
