//! The weekly performance series of one exercise variation.
//!
//! A week is named by the calendar month of a day and the ISO week number of
//! that day, as in `6-W23`. The two come from different calendars: a week
//! that spans two months has two names, and the days at the turn of a year
//! pair their own month with a week number that may belong to the other year
//! (December 30, 2024 is in `12-W1`). The names are kept as they are.

use crate::calendar::{civil_month, iso_week, valid_day, Date};
use crate::grouping::{distinct, lemma_distinct_members, lemma_distinct_push};
use crate::db::model::WorkoutSet;
use crate::text::{decimal, is_digit, lemma_decimal, push_decimal};
use vstd::prelude::*;
use vstd::string::StringExecFns;

verus! {

/// The name of a week: a calendar month and an ISO week number.
#[derive(Clone, Copy, Debug, PartialEq, Eq, Structural, Hash)]
pub struct WeekLabel {
    pub month: u32,
    pub week: u32,
}

impl WeekLabel {
    /// The label of the day with the given number.
    pub open spec fn of_day(day: int) -> WeekLabel {
        WeekLabel { month: civil_month(day) as u32, week: iso_week(day) as u32 }
    }

    /// The label as text: the month, `-W`, the week, both without padding.
    pub open spec fn text(self) -> Seq<char> {
        decimal(self.month as nat) + seq!['-', 'W'] + decimal(self.week as nat)
    }

    /// The label of the week in which `date` lies.
    pub fn of(date: &Date) -> (r: WeekLabel)
        ensures
            r == WeekLabel::of_day(date@),
            1 <= r.month <= 12,
            1 <= r.week <= 53,
    {
        WeekLabel { month: date.month(), week: date.iso_week() }
    }

    /// The label as text, such as `6-W23`.
    pub fn to_string(&self) -> (r: String)
        ensures
            r@ == self.text(),
    {
        let mut out = String::new();
        push_decimal(&mut out, self.month as u64);
        out.append("-W");
        push_decimal(&mut out, self.week as u64);
        proof {
            reveal_strlit("-W");
            assert("-W"@ =~= seq!['-', 'W']);
            assert(out@ =~= self.text());
        }
        out
    }
}

/// The label of each day from `start` to `end`, both included, in order; empty
/// where `end` is before `start`.
pub open spec fn range_labels(start: int, end: int) -> Seq<WeekLabel> {
    Seq::new(
        if end >= start {
            (end - start + 1) as nat
        } else {
            0nat
        },
        |i: int| WeekLabel::of_day(start + i),
    )
}

/// The weeks that the days from `start` to `end` lie in, each once, in the
/// order of the days.
pub open spec fn series_labels(start: int, end: int) -> Seq<WeekLabel> {
    distinct(range_labels(start, end))
}

/// The sets of `sets` that were performed in the week `label`, in their order.
pub open spec fn sets_in_week(sets: Seq<WorkoutSet>, label: WeekLabel) -> Seq<WorkoutSet> {
    sets.filter(|set: WorkoutSet| WeekLabel::of_day(set.performed_on@) == label)
}

/// One week of a performance series: its name and the sets performed in it.
#[derive(Clone, Debug, PartialEq, Eq)]
pub struct WeekBucket {
    pub week: String,
    pub label: WeekLabel,
    pub sets: Vec<WorkoutSet>,
}

/// Whether `series` is the performance series of `sets` over the days from
/// `start` to `end`: one bucket for each week of the range, in the order of
/// the days, named by its label and holding the sets of that week.
pub open spec fn is_series(
    series: Seq<WeekBucket>,
    sets: Seq<WorkoutSet>,
    start: int,
    end: int,
) -> bool {
    &&& series.len() == series_labels(start, end).len()
    &&& forall|i: int|
        0 <= i < series.len() ==> {
            &&& (#[trigger] series[i]).label == series_labels(start, end)[i]
            &&& series[i].week@ == series[i].label.text()
            &&& series[i].sets@ == sets_in_week(sets, series[i].label)
        }
}

/// Every day of the range lies in one of the weeks of the series, every week
/// of the series holds a day of the range, and no week comes twice: the
/// series has as many entries as the range has distinct weeks.
pub proof fn lemma_series_labels(start: int, end: int)
    ensures
        series_labels(start, end).no_duplicates(),
        forall|day: int|
            start <= day <= end ==> series_labels(start, end).contains(
                #[trigger] WeekLabel::of_day(day),
            ),
        forall|i: int|
            0 <= i < series_labels(start, end).len() ==> exists|day: int|
                start <= day <= end && WeekLabel::of_day(day) == #[trigger] series_labels(
                    start,
                    end,
                )[i],
        series_labels(start, end).len() <= range_labels(start, end).len(),
        end < start ==> series_labels(start, end).len() == 0,
{
    let labels = range_labels(start, end);
    let weeks = series_labels(start, end);
    lemma_distinct_members(labels);
    assert forall|day: int| start <= day <= end implies weeks.contains(
        #[trigger] WeekLabel::of_day(day),
    ) by {
        assert(labels[day - start] == WeekLabel::of_day(day));
        assert(labels.contains(WeekLabel::of_day(day)));
    }
    assert forall|i: int| 0 <= i < weeks.len() implies exists|day: int|
        start <= day <= end && WeekLabel::of_day(day) == #[trigger] weeks[i] by {
        assert(weeks.contains(weeks[i]));
        assert(labels.contains(weeks[i]));
        let k = choose|k: int| 0 <= k < labels.len() && labels[k] == weeks[i];
        assert(WeekLabel::of_day(start + k) == weeks[i]);
    }
}

/// Two labels with the same text are the same label.
pub proof fn lemma_label_text_is_its_own(a: WeekLabel, b: WeekLabel)
    requires
        a.text() == b.text(),
    ensures
        a == b,
{
    let month_a = decimal(a.month as nat);
    let month_b = decimal(b.month as nat);
    let week_a = decimal(a.week as nat);
    let week_b = decimal(b.week as nat);
    lemma_decimal(a.month as nat);
    lemma_decimal(b.month as nat);
    lemma_decimal(a.week as nat);
    lemma_decimal(b.week as nat);
    let text = a.text();
    assert(text[month_a.len() as int] == '-');
    assert(b.text()[month_b.len() as int] == '-');
    if month_a.len() < month_b.len() {
        assert(b.text()[month_a.len() as int] == month_b[month_a.len() as int]);
        assert(is_digit(month_b[month_a.len() as int]));
    }
    if month_b.len() < month_a.len() {
        assert(text[month_b.len() as int] == month_a[month_b.len() as int]);
        assert(is_digit(month_a[month_b.len() as int]));
    }
    assert(month_a.len() == month_b.len());
    assert(month_a =~= month_b) by {
        assert forall|i: int| 0 <= i < month_a.len() implies month_a[i] == month_b[i] by {
            assert(text[i] == month_a[i]);
            assert(b.text()[i] == month_b[i]);
        }
    }
    assert(week_a.len() == week_b.len()) by {
        assert(text.len() == month_a.len() + 2 + week_a.len());
        assert(b.text().len() == month_b.len() + 2 + week_b.len());
    }
    assert(week_a =~= week_b) by {
        assert forall|i: int| 0 <= i < week_a.len() implies week_a[i] == week_b[i] by {
            assert(text[month_a.len() + 2 + i] == week_a[i]);
            assert(b.text()[month_b.len() + 2 + i] == week_b[i]);
        }
    }
}

/// No two buckets of a series have the same name: every week of the range
/// appears once, under its own name.
pub proof fn lemma_series_names_differ(
    series: Seq<WeekBucket>,
    sets: Seq<WorkoutSet>,
    start: int,
    end: int,
)
    requires
        is_series(series, sets, start, end),
    ensures
        forall|i: int, j: int| 0 <= i < j < series.len() ==> series[i].week@ != series[j].week@,
        forall|i: int, j: int| 0 <= i < j < series.len() ==> series[i].label != series[j].label,
{
    lemma_series_labels(start, end);
    assert forall|i: int, j: int| 0 <= i < j < series.len() implies series[i].week@
        != series[j].week@ by {
        assert(series[i].label == series_labels(start, end)[i]);
        assert(series[j].label == series_labels(start, end)[j]);
        if series[i].week@ == series[j].week@ {
            lemma_label_text_is_its_own(series[i].label, series[j].label);
        }
    }
}

/// In a series, a week in which no set was performed has an empty bucket,
/// and every bucket holds only sets of its own week.
pub proof fn lemma_series_buckets(
    series: Seq<WeekBucket>,
    sets: Seq<WorkoutSet>,
    start: int,
    end: int,
)
    requires
        is_series(series, sets, start, end),
    ensures
        forall|i: int|
            0 <= i < series.len() && (forall|k: int|
                0 <= k < sets.len() ==> WeekLabel::of_day(sets[k].performed_on@)
                    != series[i].label) ==> (#[trigger] series[i]).sets@.len() == 0,
        forall|i: int, k: int|
            0 <= i < series.len() && 0 <= k < series[i].sets@.len() ==> WeekLabel::of_day(
                (#[trigger] series[i].sets@[k]).performed_on@,
            ) == series[i].label,
{
    assert forall|i: int|
        0 <= i < series.len() && (forall|k: int|
            0 <= k < sets.len() ==> WeekLabel::of_day(sets[k].performed_on@)
                != series[i].label) implies (#[trigger] series[i]).sets@.len() == 0 by {
        let label = series[i].label;
        let pred = |set: WorkoutSet| WeekLabel::of_day(set.performed_on@) == label;
        sets.lemma_all_neg_filter_empty(pred);
    }
    assert forall|i: int, k: int|
        0 <= i < series.len() && 0 <= k < series[i].sets@.len() implies WeekLabel::of_day(
        (#[trigger] series[i].sets@[k]).performed_on@,
    ) == series[i].label by {
        let label = series[i].label;
        let pred = |set: WorkoutSet| WeekLabel::of_day(set.performed_on@) == label;
        sets.lemma_filter_pred(pred, k);
    }
}

/// The place of `label` among `labels`, if it is there.
fn label_position(labels: &Vec<WeekLabel>, label: WeekLabel) -> (r: Option<usize>)
    ensures
        r.is_some() == labels@.contains(label),
        r matches Some(i) ==> i < labels.len() && labels[i as int] == label,
{
    let mut i: usize = 0;
    while i < labels.len()
        invariant
            i <= labels.len(),
            forall|k: int| 0 <= k < i ==> labels[k] != label,
        decreases labels.len() - i,
    {
        if labels[i] == label {
            return Some(i);
        }
        i = i + 1;
    }
    None
}

/// The weeks that the days from `start` to `end` lie in, both days included,
/// each once and in the order of the days; none where `end` is before `start`.
pub fn week_labels(start: Date, end: Date) -> (r: Vec<WeekLabel>)
    ensures
        r@ == series_labels(start@, end@),
{
    let mut labels: Vec<WeekLabel> = Vec::new();
    if !start.on_or_before(&end) {
        proof {
            assert(range_labels(start@, end@) =~= Seq::<WeekLabel>::empty());
        }
        return labels;
    }
    let last: i32 = end.days();
    let mut cursor = start;
    proof {
        assert(range_labels(start@, start@ - 1) =~= Seq::<WeekLabel>::empty());
    }
    loop
        invariant_except_break
            labels@ == series_labels(start@, cursor@ - 1),
        invariant
            start@ <= cursor@ <= end@,
            end@ == last,
            valid_day(last as int),
        ensures
            labels@ == series_labels(start@, end@),
        decreases end@ - cursor@,
    {
        let label = WeekLabel::of(&cursor);
        proof {
            assert(range_labels(start@, cursor@) =~= range_labels(start@, cursor@ - 1).push(label));
            lemma_distinct_push(range_labels(start@, cursor@ - 1), label);
        }
        if label_position(&labels, label).is_none() {
            labels.push(label);
        }
        if cursor.same_day(&end) {
            break;
        }
        match cursor.succ() {
            Some(next) => {
                cursor = next;
            },
            None => {
                break;
            },
        }
    }
    labels
}

/// The sets of `sets` whose label, given beside them in `labels`, is `label`.
fn collect_week(sets: &Vec<WorkoutSet>, labels: &Vec<WeekLabel>, label: WeekLabel) -> (r: Vec<
    WorkoutSet,
>)
    requires
        labels.len() == sets.len(),
        forall|k: int|
            0 <= k < sets.len() ==> #[trigger] labels[k] == WeekLabel::of_day(
                sets[k].performed_on@,
            ),
    ensures
        r@ == sets_in_week(sets@, label),
{
    let ghost pred = |set: WorkoutSet| WeekLabel::of_day(set.performed_on@) == label;
    let mut out: Vec<WorkoutSet> = Vec::new();
    let mut k: usize = 0;
    proof {
        assert(sets@.take(0) =~= Seq::<WorkoutSet>::empty());
        Seq::<WorkoutSet>::empty().lemma_filter_len(pred);
    }
    while k < sets.len()
        invariant
            k <= sets.len(),
            labels.len() == sets.len(),
            forall|n: int|
                0 <= n < sets.len() ==> #[trigger] labels[n] == WeekLabel::of_day(
                    sets[n].performed_on@,
                ),
            pred == |set: WorkoutSet| WeekLabel::of_day(set.performed_on@) == label,
            out@ == sets@.take(k as int).filter(pred),
        decreases sets.len() - k,
    {
        proof {
            sets@.take(k as int).lemma_filter_push(sets@[k as int], pred);
            assert(sets@.take(k + 1) =~= sets@.take(k as int).push(sets@[k as int]));
        }
        if labels[k] == label {
            out.push(sets[k]);
        }
        k = k + 1;
    }
    proof {
        assert(sets@.take(k as int) =~= sets@);
    }
    out
}

/// The performance series of `sets` over the days from `start` to `end`.
///
/// It has one bucket for each week that a day of the range lies in, in the
/// order of the days, whether or not a set was performed in it. A bucket
/// holds the sets of `sets` whose day of performance has the bucket's label,
/// in their order in `sets`. Where `end` is before `start` the series is
/// empty.
pub fn performance_series(sets: &Vec<WorkoutSet>, start: Date, end: Date) -> (r: Vec<WeekBucket>)
    ensures
        is_series(r@, sets@, start@, end@),
{
    let weeks = week_labels(start, end);
    let mut labels: Vec<WeekLabel> = Vec::new();
    let mut k: usize = 0;
    while k < sets.len()
        invariant
            k <= sets.len(),
            labels.len() == k,
            forall|n: int|
                0 <= n < k ==> #[trigger] labels[n] == WeekLabel::of_day(sets[n].performed_on@),
        decreases sets.len() - k,
    {
        labels.push(WeekLabel::of(&sets[k].performed_on));
        k = k + 1;
    }
    let mut series: Vec<WeekBucket> = Vec::new();
    let mut i: usize = 0;
    while i < weeks.len()
        invariant
            i <= weeks.len(),
            weeks@ == series_labels(start@, end@),
            labels.len() == sets.len(),
            forall|n: int|
                0 <= n < sets.len() ==> #[trigger] labels[n] == WeekLabel::of_day(
                    sets[n].performed_on@,
                ),
            series.len() == i,
            forall|n: int|
                0 <= n < i ==> {
                    &&& (#[trigger] series[n]).label == weeks[n]
                    &&& series[n].week@ == series[n].label.text()
                    &&& series[n].sets@ == sets_in_week(sets@, series[n].label)
                },
        decreases weeks.len() - i,
    {
        let label = weeks[i];
        let bucket = WeekBucket {
            week: label.to_string(),
            label,
            sets: collect_week(sets, &labels, label),
        };
        series.push(bucket);
        i = i + 1;
    }
    series
}

} // verus!
