//! Grouping of keyed items: a stable sort by key followed by a split into
//! runs of equal keys.
//!
//! Sorting and splitting are done by `slice::sort_by_key` and by
//! `Itertools::group_by`; what is proved here is that the two together give
//! one group per key, in ascending order of the keys, each group holding the
//! items of its key in the order in which they came.

use vstd::prelude::*;
use itertools::Itertools;

verus! {

/// The predicate "this item carries `key`".
pub open spec fn has_key<T>(key: u64) -> spec_fn((u64, T)) -> bool {
    |item: (u64, T)| item.0 == key
}

/// The items that carry `key`, in their order.
pub open spec fn with_key<T>(items: Seq<(u64, T)>, key: u64) -> Seq<(u64, T)> {
    items.filter(has_key(key))
}

/// The items without their keys.
pub open spec fn payloads<T>(items: Seq<(u64, T)>) -> Seq<T> {
    items.map_values(|item: (u64, T)| item.1)
}

/// What the items that carry `key` hold, in their order.
pub open spec fn values_with_key<T>(items: Seq<(u64, T)>, key: u64) -> Seq<T> {
    payloads(with_key(items, key))
}

/// The values, each paired with `key`.
pub open spec fn keyed<T>(key: u64, values: Seq<T>) -> Seq<(u64, T)> {
    values.map_values(|value: T| (key, value))
}

/// No item is followed by one with a smaller key.
pub open spec fn keys_ascending<T>(items: Seq<(u64, T)>) -> bool {
    forall|i: int, j: int| 0 <= i < j < items.len() ==> items[i].0 <= items[j].0
}

/// The runs laid end to end, every value paired with the key of its run.
pub open spec fn concat_runs<T>(runs: Seq<(u64, Vec<T>)>) -> Seq<(u64, T)>
    decreases runs.len(),
{
    if runs.len() == 0 {
        Seq::empty()
    } else {
        concat_runs(runs.drop_last()) + keyed(runs.last().0, runs.last().1@)
    }
}

/// `runs` cuts `items` into its maximal stretches of equal keys: laid end to
/// end the runs give `items` back, no run is empty, and neighbouring runs
/// differ in their key.
pub open spec fn is_run_split<T>(runs: Seq<(u64, Vec<T>)>, items: Seq<(u64, T)>) -> bool {
    &&& concat_runs(runs) == items
    &&& forall|r: int| 0 <= r < runs.len() ==> (#[trigger] runs[r]).1@.len() > 0
    &&& forall|r: int| 0 < r < runs.len() ==> runs[r - 1].0 != (#[trigger] runs[r]).0
}

/// One of the groups stands under `key`.
pub open spec fn has_group<T>(groups: Seq<(u64, Vec<T>)>, key: u64) -> bool {
    exists|g: int| 0 <= g < groups.len() && (#[trigger] groups[g]).0 == key
}

/// `groups` is the grouping of `items` by key: the keys of the groups ascend
/// strictly, every key of an item has its group, and each group holds, in
/// their order, the values of the items that carry its key, of which there is
/// at least one.
pub open spec fn is_grouping<T>(groups: Seq<(u64, Vec<T>)>, items: Seq<(u64, T)>) -> bool {
    &&& forall|g: int, h: int| 0 <= g < h < groups.len() ==> groups[g].0 < groups[h].0
    &&& forall|g: int|
        0 <= g < groups.len() ==> {
            &&& (#[trigger] groups[g]).1@.len() > 0
            &&& groups[g].1@ == values_with_key(items, groups[g].0)
        }
    &&& forall|i: int| 0 <= i < items.len() ==> has_group(groups, (#[trigger] items[i]).0)
}

/// Sorts the pairs by their key with `slice::sort_by_key` of std, which is a
/// stable sort: afterwards the keys ascend, and the pairs of any one key are
/// the same as before, in the same order.
#[verifier::external_body]
fn sort_by_key<T>(items: &mut Vec<(u64, T)>)
    ensures
        keys_ascending(final(items)@),
        forall|key: u64| #[trigger] with_key(final(items)@, key) == with_key(old(items)@, key),
{
    items.sort_by_key(|item| item.0);
}

/// Splits the pairs into runs with `Itertools::group_by`, which puts
/// consecutive elements of equal key into one group. The groups are taken in
/// the order in which they come, each with its key, and the values of each
/// are gathered with `Itertools::collect_vec`.
#[verifier::external_body]
fn key_runs<T>(items: Vec<(u64, T)>) -> (runs: Vec<(u64, Vec<T>)>)
    ensures
        is_run_split(runs@, items@),
{
    let grouped = items.into_iter().group_by(|item| item.0);
    let mut runs = Vec::new();
    for (key, run) in &grouped {
        runs.push((key, run.map(|item| item.1).collect_vec()));
    }
    runs
}

/// A filter keeps a sequence whole when every element passes it.
proof fn lemma_filter_keeps_all<A>(s: Seq<A>, pred: spec_fn(A) -> bool)
    requires
        forall|i: int| 0 <= i < s.len() ==> pred(#[trigger] s[i]),
    ensures
        s.filter(pred) == s,
    decreases s.len(),
{
    reveal(Seq::filter);
    if s.len() > 0 {
        lemma_filter_keeps_all(s.drop_last(), pred);
        assert(s.drop_last().push(s.last()) =~= s);
    }
}

/// A filter leaves nothing when no element passes it.
proof fn lemma_filter_keeps_none<A>(s: Seq<A>, pred: spec_fn(A) -> bool)
    requires
        forall|i: int| 0 <= i < s.len() ==> !pred(#[trigger] s[i]),
    ensures
        s.filter(pred) == Seq::<A>::empty(),
    decreases s.len(),
{
    reveal(Seq::filter);
    if s.len() > 0 {
        lemma_filter_keeps_none(s.drop_last(), pred);
    }
}

/// Every item of the runs laid end to end lies in one of the runs, under
/// that run's key.
proof fn lemma_concat_key_in_run<T>(runs: Seq<(u64, Vec<T>)>, p: int)
    requires
        0 <= p < concat_runs(runs).len(),
    ensures
        has_group(runs, concat_runs(runs)[p].0),
    decreases runs.len(),
{
    let before = concat_runs(runs.drop_last());
    if p < before.len() {
        lemma_concat_key_in_run(runs.drop_last(), p);
        let r = choose|r: int|
            0 <= r < runs.drop_last().len() && (#[trigger] runs.drop_last()[r]).0 == before[p].0;
        assert(runs[r].0 == concat_runs(runs)[p].0);
    } else {
        assert(runs[runs.len() - 1].0 == concat_runs(runs)[p].0);
    }
}

/// Dropping the last run leaves a split of what the other runs hold, with
/// keys that still ascend.
proof fn lemma_front_runs<T>(runs: Seq<(u64, Vec<T>)>)
    requires
        runs.len() > 0,
        is_run_split(runs, concat_runs(runs)),
        keys_ascending(concat_runs(runs)),
    ensures
        is_run_split(runs.drop_last(), concat_runs(runs.drop_last())),
        keys_ascending(concat_runs(runs.drop_last())),
{
    let front = runs.drop_last();
    let before = concat_runs(front);
    let all = concat_runs(runs);
    assert forall|i: int, j: int| 0 <= i < j < before.len() implies before[i].0 <= before[j].0 by {
        assert(all[i] == before[i] && all[j] == before[j]);
    }
    assert forall|r: int| 0 <= r < front.len() implies (#[trigger] front[r]).1@.len() > 0 by {
        assert(front[r] == runs[r]);
    }
    assert forall|r: int| 0 < r < front.len() implies front[r - 1].0 != (#[trigger] front[r]).0 by {
        assert(front[r] == runs[r] && front[r - 1] == runs[r - 1]);
    }
}

/// The last item of the runs laid end to end carries the key of the last run.
proof fn lemma_concat_ends_with_last_key<T>(runs: Seq<(u64, Vec<T>)>)
    requires
        runs.len() > 0,
        runs.last().1@.len() > 0,
    ensures
        concat_runs(runs).len() > 0,
        concat_runs(runs).last().0 == runs.last().0,
{
    let tail = keyed(runs.last().0, runs.last().1@);
    assert(concat_runs(runs) == concat_runs(runs.drop_last()) + tail);
    assert(concat_runs(runs).last() == tail.last());
}

/// Where the keys of the items ascend, the keys of their runs ascend
/// strictly.
proof fn lemma_run_keys_ascend<T>(runs: Seq<(u64, Vec<T>)>)
    requires
        is_run_split(runs, concat_runs(runs)),
        keys_ascending(concat_runs(runs)),
    ensures
        forall|g: int, h: int| 0 <= g < h < runs.len() ==> runs[g].0 < runs[h].0,
    decreases runs.len(),
{
    if runs.len() > 1 {
        let n = runs.len() - 1;
        let front = runs.drop_last();
        let before = concat_runs(front);
        let all = concat_runs(runs);
        let tail = keyed(runs[n].0, runs[n].1@);
        lemma_front_runs(runs);
        lemma_run_keys_ascend(front);
        assert(front.last() == runs[n - 1]);
        assert(runs[n - 1].1@.len() > 0);
        lemma_concat_ends_with_last_key(front);
        assert(runs[n].1@.len() > 0);
        assert(all == before + tail);
        assert(all[before.len() - 1] == before.last());
        assert(all[before.len() as int] == tail[0]);
        assert(runs[n - 1].0 <= runs[n].0);
        assert(runs[n - 1].0 != runs[n].0);
        assert forall|g: int, h: int| 0 <= g < h < runs.len() implies runs[g].0 < runs[h].0 by {
            assert(front[g] == runs[g]);
            if h < n {
                assert(front[h] == runs[h]);
            } else if g < n - 1 {
                assert(front[n - 1] == runs[n - 1]);
                assert(front[g].0 < front[n - 1].0);
            }
        }
    }
}

/// Where the keys of the runs differ from each other, the items of a run's
/// key are the items of that run.
proof fn lemma_run_holds_its_key<T>(runs: Seq<(u64, Vec<T>)>, g: int)
    requires
        0 <= g < runs.len(),
        forall|a: int, b: int| 0 <= a < b < runs.len() ==> runs[a].0 < runs[b].0,
    ensures
        with_key(concat_runs(runs), runs[g].0) == keyed(runs[g].0, runs[g].1@),
    decreases runs.len(),
{
    let n = runs.len() - 1;
    let front = runs.drop_last();
    let before = concat_runs(front);
    let tail = keyed(runs[n].0, runs[n].1@);
    let key = runs[g].0;
    let pred = has_key::<T>(key);
    assert(concat_runs(runs) == before + tail);
    Seq::filter_distributes_over_add(before, tail, pred);
    if g < n {
        assert forall|a: int, b: int| 0 <= a < b < front.len() implies front[a].0
            < front[b].0 by {
            assert(front[a] == runs[a] && front[b] == runs[b]);
        }
        lemma_run_holds_its_key(front, g);
        assert(front[g] == runs[g]);
        assert(runs[g].0 < runs[n].0);
        lemma_filter_keeps_none(tail, pred);
        assert(before.filter(pred) + tail.filter(pred) =~= before.filter(pred));
    } else {
        lemma_filter_keeps_all(tail, pred);
        assert forall|p: int| 0 <= p < before.len() implies !pred(#[trigger] before[p]) by {
            lemma_concat_key_in_run(front, p);
            let r = choose|r: int| 0 <= r < front.len() && (#[trigger] front[r]).0 == before[p].0;
            assert(front[r] == runs[r]);
            assert(runs[r].0 < runs[n].0);
        }
        lemma_filter_keeps_none(before, pred);
        assert(before.filter(pred) + tail.filter(pred) =~= tail);
    }
}

/// Groups the items by their key.
///
/// The result has one group for each key that occurs, in ascending order of
/// the keys; a group holds the values of all items of its key, in the order
/// in which the items were given.
pub fn group_by_key<T>(items: Vec<(u64, T)>) -> (groups: Vec<(u64, Vec<T>)>)
    ensures
        is_grouping(groups@, items@),
{
    let ghost given = items@;
    let mut sorted = items;
    sort_by_key(&mut sorted);
    let ghost ordered = sorted@;
    let groups = key_runs(sorted);
    proof {
        lemma_run_keys_ascend(groups@);
        assert forall|g: int| 0 <= g < groups@.len() implies (#[trigger] groups@[g]).1@
            == values_with_key(given, groups@[g].0) by {
            let key = groups@[g].0;
            lemma_run_holds_its_key(groups@, g);
            assert(with_key(given, key) == with_key(ordered, key));
            assert(payloads(keyed(key, groups@[g].1@)) =~= groups@[g].1@);
        }
        assert forall|i: int| 0 <= i < given.len() implies has_group(
            groups@,
            (#[trigger] given[i]).0,
        ) by {
            let key = given[i].0;
            assert(has_key::<T>(key)(given[i]));
            given.lemma_filter_contains(has_key::<T>(key), i);
            assert(with_key(ordered, key).contains(given[i]));
            ordered.lemma_filter_contains_rev(has_key::<T>(key), given[i]);
            let p = choose|p: int| 0 <= p < ordered.len() && ordered[p] == given[i];
            lemma_concat_key_in_run(groups@, p);
        }
    }
    groups
}

} // verus!
