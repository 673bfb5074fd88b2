//! Grouping by key in order of first appearance.
//!
//! The dashboard aggregations walk their rows once and keep one slot per key,
//! in the order in which the keys were first met. [`distinct`] says which
//! keys those are; [`FirstSeen`] finds a key's slot in constant time.

use std::collections::HashMap;
use vstd::prelude::*;

verus! {

broadcast use vstd::std_specs::hash::group_hash_axioms;

/// The items of `items` without repetitions, each at the place of its first
/// occurrence.
pub open spec fn distinct<K>(items: Seq<K>) -> Seq<K>
    decreases items.len(),
{
    if items.len() == 0 {
        Seq::empty()
    } else {
        let before = distinct(items.drop_last());
        if before.contains(items.last()) {
            before
        } else {
            before.push(items.last())
        }
    }
}

/// How often `key` occurs in `items`.
pub open spec fn occurrences<K>(items: Seq<K>, key: K) -> nat
    decreases items.len(),
{
    if items.len() == 0 {
        0
    } else {
        occurrences(items.drop_last(), key) + if items.last() == key {
            1nat
        } else {
            0nat
        }
    }
}

/// The sum of the occurrences in `items` of each key of `keys`.
pub open spec fn total_occurrences<K>(items: Seq<K>, keys: Seq<K>) -> nat
    decreases keys.len(),
{
    if keys.len() == 0 {
        0
    } else {
        total_occurrences(items, keys.drop_last()) + occurrences(items, keys.last())
    }
}

/// Appending an item adds it to the distinct items unless it is there already.
pub proof fn lemma_distinct_push<K>(items: Seq<K>, item: K)
    ensures
        distinct(items.push(item)) == if distinct(items).contains(item) {
            distinct(items)
        } else {
            distinct(items).push(item)
        },
{
    assert(items.push(item).drop_last() =~= items);
}

/// The distinct items hold exactly the items, and none twice.
pub proof fn lemma_distinct_members<K>(items: Seq<K>)
    ensures
        distinct(items).no_duplicates(),
        distinct(items).len() <= items.len(),
        forall|k: K| #[trigger] distinct(items).contains(k) <==> items.contains(k),
    decreases items.len(),
{
    if items.len() > 0 {
        let before = items.drop_last();
        let last = items.last();
        lemma_distinct_members(before);
        let d = distinct(before);
        assert forall|k: K| #[trigger] distinct(items).contains(k) <==> items.contains(k) by {
            if items.contains(k) {
                let i = choose|i: int| 0 <= i < items.len() && items[i] == k;
                if i < before.len() {
                    assert(before[i] == k);
                    assert(before.contains(k));
                    assert(d.contains(k));
                    if !d.contains(last) {
                        let j = choose|j: int| 0 <= j < d.len() && d[j] == k;
                        assert(d.push(last)[j] == k);
                    }
                } else {
                    assert(k == last);
                    if !d.contains(last) {
                        assert(d.push(last)[d.len() as int] == last);
                    }
                }
            }
            if distinct(items).contains(k) {
                let j = choose|j: int| 0 <= j < distinct(items).len() && distinct(items)[j] == k;
                if j < d.len() {
                    assert(d[j] == k);
                    assert(d.contains(k));
                    let i = choose|i: int| 0 <= i < before.len() && before[i] == k;
                    assert(items[i] == k);
                } else {
                    assert(k == last);
                    assert(items[items.len() - 1] == k);
                }
            }
        }
    }
}

/// Leaving items out of a sequence that holds none twice gives one that
/// holds none twice.
pub proof fn lemma_filter_keeps_apart<K>(items: Seq<K>, keep: spec_fn(K) -> bool)
    requires
        items.no_duplicates(),
    ensures
        items.filter(keep).no_duplicates(),
    decreases items.len(),
{
    if items.len() == 0 {
        items.lemma_filter_len(keep);
    } else {
        let before = items.drop_last();
        let last = items.last();
        lemma_filter_keeps_apart(before, keep);
        before.lemma_filter_push(last, keep);
        assert(before.push(last) =~= items);
        let kept = before.filter(keep);
        if keep(last) {
            assert forall|i: int, j: int|
                0 <= i < kept.len() + 1 && 0 <= j < kept.len() + 1 && i != j implies kept.push(
                last,
            )[i] != kept.push(last)[j] by {
                if i < kept.len() && j == kept.len() {
                    assert(kept.contains(kept[i]));
                    before.lemma_filter_contains_rev(keep, kept[i]);
                    let k = choose|k: int| 0 <= k < before.len() && before[k] == kept[i];
                    assert(items[k] == kept[i]);
                } else if j < kept.len() && i == kept.len() {
                    assert(kept.contains(kept[j]));
                    before.lemma_filter_contains_rev(keep, kept[j]);
                    let k = choose|k: int| 0 <= k < before.len() && before[k] == kept[j];
                    assert(items[k] == kept[j]);
                }
            }
        }
    }
}

/// An item occurs at least once exactly when the sequence holds it.
pub proof fn lemma_occurrences_positive<K>(items: Seq<K>, key: K)
    ensures
        occurrences(items, key) > 0 <==> items.contains(key),
        occurrences(items, key) <= items.len(),
    decreases items.len(),
{
    if items.len() > 0 {
        let before = items.drop_last();
        lemma_occurrences_positive(before, key);
        if before.contains(key) {
            let i = choose|i: int| 0 <= i < before.len() && before[i] == key;
            assert(items[i] == key);
        }
        if items.contains(key) {
            let i = choose|i: int| 0 <= i < items.len() && items[i] == key;
            if i < before.len() {
                assert(before[i] == key);
            }
        }
        if items.last() == key {
            assert(items[items.len() - 1] == key);
        }
    }
}

/// Appending an item that is not among `keys` leaves the sum over `keys` as
/// it was; appending one that is among them, once, adds one.
proof fn lemma_total_occurrences_push<K>(items: Seq<K>, keys: Seq<K>, item: K)
    requires
        keys.no_duplicates(),
    ensures
        total_occurrences(items.push(item), keys) == total_occurrences(items, keys) + if keys.contains(
            item,
        ) {
            1nat
        } else {
            0nat
        },
    decreases keys.len(),
{
    assert(items.push(item).drop_last() =~= items);
    if keys.len() > 0 {
        let before = keys.drop_last();
        let last = keys.last();
        lemma_total_occurrences_push(items, before, item);
        if before.contains(item) {
            let i = choose|i: int| 0 <= i < before.len() && before[i] == item;
            assert(keys[i] == item);
            assert(last != item);
        }
        if last == item {
            assert(keys[keys.len() - 1] == item);
        }
        if keys.contains(item) && last != item {
            let i = choose|i: int| 0 <= i < keys.len() && keys[i] == item;
            assert(before[i] == item);
        }
    }
}

/// No occurrences are counted in an empty sequence.
proof fn lemma_total_occurrences_empty<K>(keys: Seq<K>)
    ensures
        total_occurrences(Seq::<K>::empty(), keys) == 0,
    decreases keys.len(),
{
    if keys.len() > 0 {
        lemma_total_occurrences_empty(keys.drop_last());
    }
}

/// Counted over its distinct items, a sequence's occurrences add up to its
/// length.
pub proof fn lemma_occurrences_add_up<K>(items: Seq<K>)
    ensures
        total_occurrences(items, distinct(items)) == items.len(),
    decreases items.len(),
{
    if items.len() == 0 {
        lemma_total_occurrences_empty(distinct(items));
    } else {
        let before = items.drop_last();
        let last = items.last();
        let d = distinct(before);
        lemma_occurrences_add_up(before);
        lemma_distinct_members(before);
        lemma_distinct_members(items);
        assert(before.push(last) =~= items);
        if d.contains(last) {
            lemma_total_occurrences_push(before, d, last);
        } else {
            lemma_total_occurrences_push(before, d, last);
            assert(d.push(last).drop_last() =~= d);
            lemma_occurrences_positive(before, last);
            assert(occurrences(items, last) == 1);
        }
    }
}

/// The keys met so far, in order of first appearance, with the slot of each.
pub struct FirstSeen {
    keys: Vec<i32>,
    slots: HashMap<i32, usize>,
}

impl View for FirstSeen {
    type V = Seq<int>;

    /// The keys, in the order in which they were first met.
    closed spec fn view(&self) -> Seq<int> {
        Seq::new(self.keys@.len(), |i: int| self.keys@[i] as int)
    }
}

impl FirstSeen {
    /// Every key has one slot, and the map leads to it.
    pub closed spec fn wf(&self) -> bool {
        &&& self.keys@.no_duplicates()
        &&& forall|i: int|
            0 <= i < self.keys@.len() ==> #[trigger] self.slots@.contains_key(self.keys@[i])
                && self.slots@[self.keys@[i]] == i
        &&& forall|k: i32| #[trigger]
            self.slots@.contains_key(k) ==> 0 <= self.slots@[k] < self.keys@.len()
                && self.keys@[self.slots@[k] as int] == k
    }

    /// No key met yet.
    pub fn new() -> (r: FirstSeen)
        ensures
            r.wf(),
            r@ == Seq::<int>::empty(),
    {
        let r = FirstSeen { keys: Vec::new(), slots: HashMap::new() };
        assert(r@ =~= Seq::<int>::empty());
        r
    }

    /// The number of keys met.
    pub fn len(&self) -> (r: usize)
        ensures
            r == self@.len(),
    {
        self.keys.len()
    }

    /// The key in slot `i`.
    pub fn key(&self, i: usize) -> (r: i32)
        requires
            i < self@.len(),
        ensures
            r == self@[i as int],
    {
        self.keys[i]
    }

    /// The slot of `key`, if it was met.
    pub fn find(&self, key: i32) -> (r: Option<usize>)
        requires
            self.wf(),
        ensures
            r.is_some() == self@.contains(key as int),
            r matches Some(i) ==> i < self@.len() && self@[i as int] == key,
    {
        match self.slots.get(&key) {
            Some(slot) => {
                let i: usize = *slot;
                proof {
                    assert(self@[i as int] == key);
                }
                Some(i)
            },
            None => {
                proof {
                    if self@.contains(key as int) {
                        let i = choose|i: int| 0 <= i < self@.len() && self@[i] == key as int;
                        assert(self.slots@.contains_key(self.keys@[i]));
                    }
                }
                None
            },
        }
    }

    /// The slot of `key`, which is a new last slot where the key was not met
    /// before.
    pub fn slot(&mut self, key: i32) -> (r: usize)
        requires
            old(self).wf(),
        ensures
            final(self).wf(),
            old(self)@.contains(key as int) ==> final(self)@ == old(self)@ && r < old(self)@.len(),
            !old(self)@.contains(key as int) ==> final(self)@ == old(self)@.push(key as int) && r
                == old(self)@.len(),
            r < final(self)@.len(),
            final(self)@[r as int] == key,
    {
        match self.find(key) {
            Some(i) => i,
            None => {
                let i: usize = self.keys.len();
                self.keys.push(key);
                self.slots.insert(key, i);
                proof {
                    let keys = self.keys@;
                    assert forall|a: int, b: int|
                        0 <= a < keys.len() && 0 <= b < keys.len() && a != b implies keys[a]
                        != keys[b] by {
                        if a == i {
                            assert(old(self)@[b] == keys[b]);
                        } else if b == i {
                            assert(old(self)@[a] == keys[a]);
                        } else {
                            assert(old(self).keys@[a] == keys[a]);
                            assert(old(self).keys@[b] == keys[b]);
                        }
                    }
                    assert(self@ =~= old(self)@.push(key as int));
                    assert forall|j: int| 0 <= j < keys.len() implies #[trigger]
                        self.slots@.contains_key(keys[j]) && self.slots@[keys[j]] == j by {
                        if j < i {
                            assert(old(self).keys@[j] == keys[j]);
                            assert(old(self)@[j] == keys[j]);
                            assert(old(self).slots@.contains_key(old(self).keys@[j]));
                        }
                    }
                }
                i
            },
        }
    }
}

} // verus!
