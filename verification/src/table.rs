//! Rows in a table: selecting some, changing some, and what that does to
//! their ids.

use vstd::prelude::*;

verus! {

/// A row that can be copied out of its table.
pub trait Row: Sized {
    /// A copy of this row.
    fn duplicate(&self) -> (r: Self)
        ensures
            r == *self,
    ;
}

/// Whether the ids of `ids` count up and lie above 0 and below `next`, and
/// `next` is above their number.
pub open spec fn ids_in_order(ids: Seq<int>, next: int) -> bool {
    &&& 0 < next
    &&& ids.len() < next
    &&& forall|i: int| 0 <= i < ids.len() ==> 0 < #[trigger] ids[i] < next
    &&& forall|i: int, j: int| 0 <= i < j < ids.len() ==> ids[i] < ids[j]
}

/// Leaving rows out keeps the ids of the others in order.
pub proof fn lemma_filter_keeps_ids<A>(
    rows: Seq<A>,
    keep: spec_fn(A) -> bool,
    id: spec_fn(A) -> int,
    next: int,
)
    requires
        ids_in_order(rows.map_values(id), next),
    ensures
        ids_in_order(rows.filter(keep).map_values(id), next),
        forall|i: int|
            0 <= i < rows.filter(keep).len() ==> rows.contains(#[trigger] rows.filter(keep)[i]),
    decreases rows.len(),
{
    reveal(Seq::filter);
    let kept = rows.filter(keep);
    if rows.len() > 0 {
        let before = rows.drop_last();
        assert(ids_in_order(before.map_values(id), next)) by {
            assert forall|i: int| 0 <= i < before.len() implies 0 < #[trigger] before.map_values(
                id,
            )[i] < next by {
                assert(before.map_values(id)[i] == rows.map_values(id)[i]);
            }
            assert forall|i: int, j: int| 0 <= i < j < before.len() implies before.map_values(
                id,
            )[i] < before.map_values(id)[j] by {
                assert(before.map_values(id)[i] == rows.map_values(id)[i]);
                assert(before.map_values(id)[j] == rows.map_values(id)[j]);
            }
        }
        lemma_filter_keeps_ids(before, keep, id, next);
        let kept_before = before.filter(keep);
        assert forall|i: int| 0 <= i < kept.len() implies rows.contains(#[trigger] kept[i]) by {
            if i < kept_before.len() {
                assert(before.contains(kept_before[i]));
                let k = choose|k: int| 0 <= k < before.len() && before[k] == kept_before[i];
                assert(rows[k] == kept[i]);
            } else {
                assert(rows[rows.len() - 1] == kept[i]);
            }
        }
        assert forall|i: int| 0 <= i < kept.len() implies 0 < #[trigger] kept.map_values(id)[i]
            < next by {
            let k = choose|k: int| 0 <= k < rows.len() && rows[k] == kept[i];
            assert(rows.map_values(id)[k] == id(kept[i]));
        }
        assert forall|i: int, j: int| 0 <= i < j < kept.len() implies kept.map_values(id)[i]
            < kept.map_values(id)[j] by {
            if j < kept_before.len() {
                assert(kept_before.map_values(id)[i] < kept_before.map_values(id)[j]);
            } else {
                assert(before.contains(kept_before[i]));
                let k = choose|k: int| 0 <= k < before.len() && before[k] == kept_before[i];
                assert(rows.map_values(id)[k] < rows.map_values(id)[rows.len() - 1]);
            }
        }
        rows.lemma_filter_len(keep);
    }
}

/// A change that keeps each row's id keeps the ids in order.
pub proof fn lemma_change_keeps_ids<A>(
    rows: Seq<A>,
    change: spec_fn(A) -> A,
    id: spec_fn(A) -> int,
    next: int,
)
    requires
        ids_in_order(rows.map_values(id), next),
        forall|row: A| id(#[trigger] change(row)) == id(row),
    ensures
        ids_in_order(rows.map_values(change).map_values(id), next),
{
    assert(rows.map_values(change).map_values(id) =~= rows.map_values(id));
}

/// A new last row with the id `next` keeps the ids in order, below `next + 1`.
pub proof fn lemma_push_keeps_ids<A>(rows: Seq<A>, row: A, id: spec_fn(A) -> int, next: int)
    requires
        ids_in_order(rows.map_values(id), next),
        id(row) == next,
    ensures
        ids_in_order(rows.push(row).map_values(id), next + 1),
{
    assert(rows.push(row).map_values(id) =~= rows.map_values(id).push(next));
}

/// Each row is among those that `chosen` holds of or among the others. Where
/// `chosen` holds of none, the others are all the rows, and a change of the
/// chosen rows changes nothing.
pub proof fn lemma_split<A>(
    rows: Seq<A>,
    chosen: spec_fn(A) -> bool,
    others: spec_fn(A) -> bool,
    change: spec_fn(A) -> A,
)
    requires
        forall|row: A| #[trigger] others(row) == !chosen(row),
        forall|row: A| !chosen(row) ==> #[trigger] change(row) == row,
    ensures
        rows.filter(chosen).len() + rows.filter(others).len() == rows.len(),
        rows.filter(chosen).len() == 0 ==> rows.filter(others) == rows && rows.map_values(change)
            == rows,
    decreases rows.len(),
{
    if rows.len() == 0 {
        rows.lemma_filter_len(chosen);
        rows.lemma_filter_len(others);
        assert(rows.filter(others) =~= rows);
    } else {
        let before = rows.drop_last();
        lemma_split(before, chosen, others, change);
        before.lemma_filter_push(rows.last(), chosen);
        before.lemma_filter_push(rows.last(), others);
        assert(before.push(rows.last()) =~= rows);
        if rows.filter(chosen).len() == 0 {
            assert(before.map_values(change) == before);
            assert(rows.map_values(change) =~= rows) by {
                assert forall|i: int| 0 <= i < rows.len() implies rows.map_values(change)[i]
                    == rows[i] by {
                    if i < before.len() {
                        assert(before.map_values(change)[i] == before[i]);
                    }
                }
            }
        }
    }
}

/// The first of the chosen rows, changed, is the first changed row that the
/// choice holds of.
pub proof fn lemma_first_chosen<A>(rows: Seq<A>, chosen: spec_fn(A) -> bool, i: int)
    requires
        0 <= i < rows.len(),
        chosen(rows[i]),
        forall|k: int| 0 <= k < i ==> !chosen(#[trigger] rows[k]),
    ensures
        rows.filter(chosen).len() > 0,
        rows.filter(chosen)[0] == rows[i],
    decreases rows.len(),
{
    let before = rows.drop_last();
    before.lemma_filter_push(rows.last(), chosen);
    assert(before.push(rows.last()) =~= rows);
    if i < rows.len() - 1 {
        lemma_first_chosen(before, chosen, i);
    } else {
        assert forall|k: int| 0 <= k < before.len() implies !chosen(#[trigger] before[k]) by {
            assert(before[k] == rows[k]);
        }
        before.lemma_all_neg_filter_empty(chosen);
    }
}

/// Copies of the rows of which `test` holds, in their order.
pub(crate) fn select<R: Row, F: Fn(&R) -> bool>(
    rows: &Vec<R>,
    test: F,
    Ghost(keep): Ghost<spec_fn(R) -> bool>,
) -> (r: Vec<R>)
    requires
        forall|row: R| #[trigger] call_requires(test, (&row,)),
        forall|row: R, b: bool| #[trigger] call_ensures(test, (&row,), b) ==> b == keep(row),
    ensures
        r@ == rows@.filter(keep),
{
    let mut out: Vec<R> = Vec::new();
    let mut i: usize = 0;
    proof {
        assert(rows@.take(0) =~= Seq::<R>::empty());
        Seq::<R>::empty().lemma_filter_len(keep);
    }
    while i < rows.len()
        invariant
            i <= rows.len(),
            forall|row: R| #[trigger] call_requires(test, (&row,)),
            forall|row: R, b: bool| #[trigger] call_ensures(test, (&row,), b) ==> b == keep(row),
            out@ == rows@.take(i as int).filter(keep),
        decreases rows.len() - i,
    {
        proof {
            rows@.take(i as int).lemma_filter_push(rows@[i as int], keep);
            assert(rows@.take(i + 1) =~= rows@.take(i as int).push(rows@[i as int]));
        }
        if test(&rows[i]) {
            out.push(rows[i].duplicate());
        }
        i = i + 1;
    }
    proof {
        assert(rows@.take(i as int) =~= rows@);
    }
    out
}

/// The rows, each as `change` makes it, in their order.
pub(crate) fn rewrite<R, F: Fn(&R) -> R>(
    rows: &Vec<R>,
    change: F,
    Ghost(changed): Ghost<spec_fn(R) -> R>,
) -> (r: Vec<R>)
    requires
        forall|row: R| #[trigger] call_requires(change, (&row,)),
        forall|row: R, new: R| #[trigger] call_ensures(change, (&row,), new) ==> new == changed(row),
    ensures
        r@ == rows@.map_values(changed),
{
    let mut out: Vec<R> = Vec::new();
    let mut i: usize = 0;
    while i < rows.len()
        invariant
            i <= rows.len(),
            forall|row: R| #[trigger] call_requires(change, (&row,)),
            forall|row: R, new: R| #[trigger]
                call_ensures(change, (&row,), new) ==> new == changed(row),
            out@ == rows@.take(i as int).map_values(changed),
        decreases rows.len() - i,
    {
        out.push(change(&rows[i]));
        proof {
            assert(rows@.take(i + 1).map_values(changed) =~= rows@.take(i as int).map_values(
                changed,
            ).push(changed(rows@[i as int])));
        }
        i = i + 1;
    }
    proof {
        assert(rows@.take(i as int) =~= rows@);
    }
    out
}

/// A copy of the first row of which `test` holds, if there is one.
pub(crate) fn first<R: Row, F: Fn(&R) -> bool>(
    rows: &Vec<R>,
    test: F,
    Ghost(chosen): Ghost<spec_fn(R) -> bool>,
) -> (r: Option<R>)
    requires
        forall|row: R| #[trigger] call_requires(test, (&row,)),
        forall|row: R, b: bool| #[trigger] call_ensures(test, (&row,), b) ==> b == chosen(row),
    ensures
        r is Some <==> rows@.filter(chosen).len() > 0,
        r matches Some(row) ==> row == rows@.filter(chosen)[0],
{
    let mut i: usize = 0;
    while i < rows.len()
        invariant
            i <= rows.len(),
            forall|row: R| #[trigger] call_requires(test, (&row,)),
            forall|row: R, b: bool| #[trigger] call_ensures(test, (&row,), b) ==> b == chosen(row),
            forall|k: int| 0 <= k < i ==> !chosen(#[trigger] rows@[k]),
        decreases rows.len() - i,
    {
        if test(&rows[i]) {
            proof {
                lemma_first_chosen(rows@, chosen, i as int);
            }
            return Some(rows[i].duplicate());
        }
        i = i + 1;
    }
    proof {
        rows@.lemma_all_neg_filter_empty(chosen);
    }
    None
}

} // verus!
