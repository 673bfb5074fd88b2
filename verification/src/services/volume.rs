//! Set volume per muscle group: how many sets a user performed for each
//! muscle group.
//!
//! A set names a variation, and a variation belongs to a muscle group. A set
//! whose variation is not in the lookup is left out of the count; it does
//! not make the summary fail.

use crate::grouping::{
    distinct, lemma_distinct_members, lemma_distinct_push, lemma_occurrences_add_up,
    lemma_occurrences_positive, occurrences, total_occurrences, FirstSeen,
};
use crate::db::model::WorkoutSet;
use std::collections::HashMap;
use vstd::prelude::*;

verus! {

broadcast use vstd::std_specs::hash::group_hash_axioms;

/// The number of sets counted for one muscle group.
#[derive(Clone, Copy, Debug, PartialEq, Eq, Structural)]
pub struct MuscleGroupVolume {
    pub muscle_group_id: i32,
    pub total_sets: i64,
}

/// A variation with the muscle group it belongs to, as the store hands it out.
#[derive(Clone, Copy, Debug, PartialEq, Eq, Structural)]
pub struct VariationGroup {
    pub muscle_group_id: i32,
    pub variation_id: i32,
}

/// The lookup from variation id to muscle group id that `rows` give; where a
/// variation comes twice, its last row counts.
pub open spec fn group_lookup(rows: Seq<VariationGroup>) -> Map<i32, i32>
    decreases rows.len(),
{
    if rows.len() == 0 {
        Map::empty()
    } else {
        group_lookup(rows.drop_last()).insert(
            rows.last().variation_id,
            rows.last().muscle_group_id,
        )
    }
}

/// Whether the lookup knows the variation of `set`.
pub open spec fn resolves(groups: Map<i32, i32>, set: WorkoutSet) -> bool {
    groups.contains_key(set.variation_id)
}

/// The muscle group of each set whose variation the lookup knows, in the
/// order of the sets.
pub open spec fn resolved_groups(sets: Seq<WorkoutSet>, groups: Map<i32, i32>) -> Seq<int> {
    sets.filter(|set: WorkoutSet| resolves(groups, set)).map_values(
        |set: WorkoutSet| groups[set.variation_id] as int,
    )
}

/// The sets whose variation the lookup does not know, in their order.
pub open spec fn orphaned_sets(sets: Seq<WorkoutSet>, groups: Map<i32, i32>) -> Seq<WorkoutSet> {
    sets.filter(|set: WorkoutSet| !resolves(groups, set))
}

/// One entry for each muscle group that a set resolves to, in the order in
/// which the groups first occur, with the number of sets that resolve to it.
pub open spec fn group_summary(sets: Seq<WorkoutSet>, groups: Map<i32, i32>) -> Seq<
    MuscleGroupVolume,
> {
    distinct(resolved_groups(sets, groups)).map_values(
        |group: int|
            MuscleGroupVolume {
                muscle_group_id: group as i32,
                total_sets: occurrences(resolved_groups(sets, groups), group) as i64,
            },
    )
}

/// The sum of `total_sets` over a summary.
pub open spec fn summed_sets(summary: Seq<MuscleGroupVolume>) -> int
    decreases summary.len(),
{
    if summary.len() == 0 {
        0
    } else {
        summed_sets(summary.drop_last()) + summary.last().total_sets
    }
}

/// One more set: its muscle group joins the resolved groups where the lookup
/// knows its variation.
proof fn lemma_resolved_push(sets: Seq<WorkoutSet>, set: WorkoutSet, groups: Map<i32, i32>)
    ensures
        resolved_groups(sets.push(set), groups) == if resolves(groups, set) {
            resolved_groups(sets, groups).push(groups[set.variation_id] as int)
        } else {
            resolved_groups(sets, groups)
        },
        resolved_groups(sets, groups).len() <= sets.len(),
{
    let pred = |set: WorkoutSet| resolves(groups, set);
    sets.lemma_filter_push(set, pred);
    sets.lemma_filter_len(pred);
    if resolves(groups, set) {
        assert(resolved_groups(sets.push(set), groups) =~= resolved_groups(sets, groups).push(
            groups[set.variation_id] as int,
        ));
    }
}

/// The counts of a summary, added up over its first `n` entries, are the
/// occurrences of the first `n` groups.
proof fn lemma_summed_prefix(sets: Seq<WorkoutSet>, groups: Map<i32, i32>, n: int)
    requires
        sets.len() <= i64::MAX,
        0 <= n <= group_summary(sets, groups).len(),
    ensures
        summed_sets(group_summary(sets, groups).take(n)) == total_occurrences(
            resolved_groups(sets, groups),
            distinct(resolved_groups(sets, groups)).take(n),
        ),
    decreases n,
{
    let resolved = resolved_groups(sets, groups);
    let summary = group_summary(sets, groups);
    let keys = distinct(resolved);
    if n > 0 {
        lemma_summed_prefix(sets, groups, n - 1);
        assert(summary.take(n).drop_last() =~= summary.take(n - 1));
        assert(keys.take(n).drop_last() =~= keys.take(n - 1));
        assert(summary.take(n).last() == summary[n - 1]);
        assert(keys.take(n).last() == keys[n - 1]);
        lemma_occurrences_positive(resolved, keys[n - 1]);
        sets.lemma_filter_len(|set: WorkoutSet| resolves(groups, set));
    }
}

/// A summary has no entry for a muscle group without a counted set and none
/// twice, and its counts add up to the number of sets whose variation the
/// lookup knows: the sets left out are not counted anywhere.
pub proof fn lemma_summary_counts_resolved_sets(sets: Seq<WorkoutSet>, groups: Map<i32, i32>)
    requires
        sets.len() <= i64::MAX,
    ensures
        forall|i: int|
            0 <= i < group_summary(sets, groups).len() ==> (#[trigger] group_summary(
                sets,
                groups,
            )[i]).total_sets >= 1,
        forall|i: int, j: int|
            0 <= i < j < group_summary(sets, groups).len() ==> distinct(
                resolved_groups(sets, groups),
            )[i] != distinct(resolved_groups(sets, groups))[j],
        summed_sets(group_summary(sets, groups)) == resolved_groups(sets, groups).len(),
        resolved_groups(sets, groups).len() + orphaned_sets(sets, groups).len() == sets.len(),
{
    let resolved = resolved_groups(sets, groups);
    let summary = group_summary(sets, groups);
    let keys = distinct(resolved);
    lemma_distinct_members(resolved);
    sets.lemma_filter_len(|set: WorkoutSet| resolves(groups, set));
    assert forall|i: int| 0 <= i < summary.len() implies (#[trigger] summary[i]).total_sets
        >= 1 by {
        assert(keys.contains(keys[i]));
        lemma_occurrences_positive(resolved, keys[i]);
    }
    lemma_summed_prefix(sets, groups, summary.len() as int);
    assert(summary.take(summary.len() as int) =~= summary);
    assert(keys.take(keys.len() as int) =~= keys);
    lemma_occurrences_add_up(resolved);
    lemma_partition(sets, groups);
}

/// Each set either resolves or is orphaned.
proof fn lemma_partition(sets: Seq<WorkoutSet>, groups: Map<i32, i32>)
    ensures
        resolved_groups(sets, groups).len() + orphaned_sets(sets, groups).len() == sets.len(),
    decreases sets.len(),
{
    let known = |set: WorkoutSet| resolves(groups, set);
    let unknown = |set: WorkoutSet| !resolves(groups, set);
    if sets.len() == 0 {
        sets.lemma_filter_len(known);
        sets.lemma_filter_len(unknown);
    } else {
        let before = sets.drop_last();
        lemma_partition(before, groups);
        before.lemma_filter_push(sets.last(), known);
        before.lemma_filter_push(sets.last(), unknown);
        assert(before.push(sets.last()) =~= sets);
    }
}

/// The lookup knows exactly the variations of its rows.
pub proof fn lemma_lookup_domain(rows: Seq<VariationGroup>, variation_id: i32)
    ensures
        group_lookup(rows).contains_key(variation_id) <==> exists|k: int|
            0 <= k < rows.len() && (#[trigger] rows[k]).variation_id == variation_id,
    decreases rows.len(),
{
    if rows.len() > 0 {
        let before = rows.drop_last();
        lemma_lookup_domain(before, variation_id);
        if group_lookup(rows).contains_key(variation_id) {
            if rows.last().variation_id == variation_id {
                assert(rows[rows.len() - 1].variation_id == variation_id);
            } else {
                let k = choose|k: int|
                    0 <= k < before.len() && (#[trigger] before[k]).variation_id == variation_id;
                assert(rows[k].variation_id == variation_id);
            }
        }
        if exists|k: int| 0 <= k < rows.len() && (#[trigger] rows[k]).variation_id == variation_id {
            let k = choose|k: int|
                0 <= k < rows.len() && (#[trigger] rows[k]).variation_id == variation_id;
            if k < before.len() {
                assert(before[k].variation_id == variation_id);
            }
        }
    }
}

/// The lookup from variation id to muscle group id that `rows` give; where a
/// variation comes twice, its last row counts.
pub fn variation_lookup(rows: &Vec<VariationGroup>) -> (r: HashMap<i32, i32>)
    ensures
        r@ == group_lookup(rows@),
{
    let mut map: HashMap<i32, i32> = HashMap::new();
    let mut i: usize = 0;
    proof {
        assert(rows@.take(0) =~= Seq::<VariationGroup>::empty());
    }
    while i < rows.len()
        invariant
            i <= rows.len(),
            map@ == group_lookup(rows@.take(i as int)),
        decreases rows.len() - i,
    {
        proof {
            assert(rows@.take(i + 1).drop_last() =~= rows@.take(i as int));
        }
        map.insert(rows[i].variation_id, rows[i].muscle_group_id);
        i = i + 1;
    }
    proof {
        assert(rows@.take(i as int) =~= rows@);
    }
    map
}

/// The number of sets of each muscle group.
///
/// A set counts for the muscle group that `groups` gives for its variation;
/// a set whose variation `groups` does not know is left out. The result has
/// one entry for each muscle group with at least one counted set, in the
/// order in which the groups first occur among the sets.
pub fn sets_per_muscle_group(sets: &Vec<WorkoutSet>, groups: &HashMap<i32, i32>) -> (r: Vec<
    MuscleGroupVolume,
>)
    requires
        sets@.len() <= i64::MAX,
    ensures
        r@ == group_summary(sets@, groups@),
{
    let mut seen = FirstSeen::new();
    let mut counts: Vec<i64> = Vec::new();
    let mut j: usize = 0;
    proof {
        assert(sets@.take(0) =~= Seq::<WorkoutSet>::empty());
        Seq::<WorkoutSet>::empty().lemma_filter_len(|set: WorkoutSet| resolves(groups@, set));
        assert(resolved_groups(Seq::<WorkoutSet>::empty(), groups@) =~= Seq::<int>::empty());
    }
    while j < sets.len()
        invariant
            j <= sets.len(),
            sets@.len() <= i64::MAX,
            seen.wf(),
            seen@ == distinct(resolved_groups(sets@.take(j as int), groups@)),
            counts.len() == seen@.len(),
            forall|i: int| 0 <= i < seen@.len() ==> i32::MIN <= #[trigger] seen@[i] <= i32::MAX,
            forall|i: int|
                0 <= i < counts.len() ==> #[trigger] counts[i] == occurrences(
                    resolved_groups(sets@.take(j as int), groups@),
                    seen@[i],
                ),
            resolved_groups(sets@.take(j as int), groups@).len() <= j,
        decreases sets.len() - j,
    {
        let ghost before = sets@.take(j as int);
        let ghost upto = sets@.take(j + 1);
        let ghost resolved = resolved_groups(before, groups@);
        let ghost old_seen = seen@;
        proof {
            assert(upto =~= before.push(sets@[j as int]));
            lemma_resolved_push(before, sets@[j as int], groups@);
            lemma_distinct_members(resolved);
        }
        match groups.get(&sets[j].variation_id) {
            Some(group) => {
                let group: i32 = *group;
                proof {
                    lemma_distinct_push(resolved, group as int);
                    assert(resolved.push(group as int).drop_last() =~= resolved);
                    lemma_occurrences_positive(resolved, group as int);
                    assert forall|i: int| 0 <= i < old_seen.len() implies occurrences(
                        resolved,
                        #[trigger] old_seen[i],
                    ) <= j by {
                        lemma_occurrences_positive(resolved, old_seen[i]);
                    }
                }
                let known: usize = seen.len();
                let slot: usize = seen.slot(group);
                if slot == known {
                    counts.push(1);
                } else {
                    let count: i64 = counts[slot] + 1;
                    counts.set(slot, count);
                }
                proof {
                    assert forall|i: int| 0 <= i < counts.len() implies #[trigger] counts[i]
                        == occurrences(resolved_groups(upto, groups@), seen@[i]) by {
                        if i < old_seen.len() && i != slot {
                            assert(old_seen[i] != group as int) by {
                                if old_seen.contains(group as int) {
                                    assert(old_seen[slot as int] == group as int);
                                } else {
                                    assert(old_seen.contains(old_seen[i]));
                                }
                            }
                        }
                    }
                }
            },
            None => {},
        }
        j = j + 1;
    }
    proof {
        assert(sets@.take(j as int) =~= sets@);
    }
    let mut out: Vec<MuscleGroupVolume> = Vec::new();
    let mut i: usize = 0;
    while i < seen.len()
        invariant
            i <= seen@.len(),
            counts.len() == seen@.len(),
            seen@ == distinct(resolved_groups(sets@, groups@)),
            forall|k: int| 0 <= k < seen@.len() ==> i32::MIN <= #[trigger] seen@[k] <= i32::MAX,
            forall|k: int|
                0 <= k < counts.len() ==> #[trigger] counts[k] == occurrences(
                    resolved_groups(sets@, groups@),
                    seen@[k],
                ),
            out.len() == i,
            forall|k: int| 0 <= k < i ==> #[trigger] out[k] == group_summary(sets@, groups@)[k],
        decreases seen@.len() - i,
    {
        out.push(MuscleGroupVolume { muscle_group_id: seen.key(i), total_sets: counts[i] });
        i = i + 1;
    }
    proof {
        assert(out@ =~= group_summary(sets@, groups@));
    }
    out
}

/// The variation ids of the sets that `groups` does not know, one for each
/// such set, in the order of the sets: what the summary leaves out.
pub fn orphaned_variations(sets: &Vec<WorkoutSet>, groups: &HashMap<i32, i32>) -> (r: Vec<i32>)
    ensures
        r@ == orphaned_sets(sets@, groups@).map_values(|set: WorkoutSet| set.variation_id),
{
    let ghost unknown = |set: WorkoutSet| !resolves(groups@, set);
    let mut out: Vec<i32> = Vec::new();
    let mut j: usize = 0;
    proof {
        assert(sets@.take(0) =~= Seq::<WorkoutSet>::empty());
        Seq::<WorkoutSet>::empty().lemma_filter_len(unknown);
    }
    while j < sets.len()
        invariant
            j <= sets.len(),
            unknown == |set: WorkoutSet| !resolves(groups@, set),
            out@ == sets@.take(j as int).filter(unknown).map_values(
                |set: WorkoutSet| set.variation_id,
            ),
        decreases sets.len() - j,
    {
        proof {
            sets@.take(j as int).lemma_filter_push(sets@[j as int], unknown);
            assert(sets@.take(j + 1) =~= sets@.take(j as int).push(sets@[j as int]));
        }
        let ghost kept = out@;
        if !groups.contains_key(&sets[j].variation_id) {
            out.push(sets[j].variation_id);
            proof {
                assert(out@ =~= sets@.take(j + 1).filter(unknown).map_values(
                    |set: WorkoutSet| set.variation_id,
                ));
            }
        }
        j = j + 1;
    }
    proof {
        assert(sets@.take(j as int) =~= sets@);
    }
    out
}

} // verus!
