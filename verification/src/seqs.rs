//! Facts about filtered sequences of rows.

use vstd::prelude::*;

verus! {

/// No two rows of `rows` have the same key.
pub open spec fn distinct_by<T, K>(rows: Seq<T>, key: spec_fn(T) -> K) -> bool {
    forall|i: int, j: int|
        #![trigger rows[i], rows[j]]
        0 <= i < j < rows.len() ==> key(rows[i]) != key(rows[j])
}

/// Whatever a filter lets through was there before and passes the filter,
/// and whatever passes the filter is let through.
pub proof fn filter_keeps_exactly<T>(rows: Seq<T>, keep: spec_fn(T) -> bool)
    ensures
        forall|i: int|
            0 <= i < rows.filter(keep).len() ==> keep(#[trigger] rows.filter(keep)[i])
                && rows.contains(rows.filter(keep)[i]),
        forall|i: int|
            0 <= i < rows.len() && keep(#[trigger] rows[i]) ==> rows.filter(keep).contains(rows[i]),
        rows.filter(keep).len() <= rows.len(),
{
    broadcast use vstd::seq_lib::group_filter_ensures;

    assert forall|i: int| 0 <= i < rows.filter(keep).len() implies rows.contains(
        #[trigger] rows.filter(keep)[i],
    ) by {
        let row = rows.filter(keep)[i];
        assert(rows.filter(keep).contains(row));
        rows.lemma_filter_contains_rev(keep, row);
    }
}

/// A filter that every row passes changes nothing.
pub proof fn filter_of_all<T>(rows: Seq<T>, keep: spec_fn(T) -> bool)
    requires
        forall|i: int| 0 <= i < rows.len() ==> keep(#[trigger] rows[i]),
    ensures
        rows.filter(keep) == rows,
    decreases rows.len(),
{
    reveal(Seq::filter);
    if rows.len() > 0 {
        let front = rows.drop_last();
        assert forall|i: int| 0 <= i < front.len() implies keep(#[trigger] front[i]) by {
            assert(front[i] == rows[i]);
        }
        filter_of_all(front, keep);
        assert(front.push(rows.last()) =~= rows);
    }
}

/// Taking one row out is filtering with what every other row passes and
/// that row does not.
pub proof fn remove_is_filter<T>(rows: Seq<T>, at: int, keep: spec_fn(T) -> bool)
    requires
        0 <= at < rows.len(),
        !keep(rows[at]),
        forall|i: int| 0 <= i < rows.len() && i != at ==> keep(#[trigger] rows[i]),
    ensures
        rows.remove(at) == rows.filter(keep),
    decreases rows.len(),
{
    reveal(Seq::filter);
    let front = rows.drop_last();
    if at == rows.len() - 1 {
        assert forall|i: int| 0 <= i < front.len() implies keep(#[trigger] front[i]) by {
            assert(front[i] == rows[i]);
        }
        filter_of_all(front, keep);
        assert(rows.remove(at) =~= front);
    } else {
        assert(front[at] == rows[at]);
        assert forall|i: int| 0 <= i < front.len() && i != at implies keep(#[trigger] front[i]) by {
            assert(front[i] == rows[i]);
        }
        remove_is_filter(front, at, keep);
        assert(rows.remove(at) =~= front.remove(at).push(rows.last()));
    }
}

/// A filter keeps distinct keys distinct.
pub proof fn filter_keeps_distinct<T, K>(
    rows: Seq<T>,
    key: spec_fn(T) -> K,
    keep: spec_fn(T) -> bool,
)
    requires
        distinct_by(rows, key),
    ensures
        distinct_by(rows.filter(keep), key),
    decreases rows.len(),
{
    reveal(Seq::filter);
    if rows.len() > 0 {
        let front = rows.drop_last();
        let last = rows.last();
        assert(distinct_by(front, key)) by {
            assert forall|i: int, j: int|
                #![trigger front[i], front[j]]
                0 <= i < j < front.len() implies key(front[i]) != key(front[j]) by {
                assert(key(rows[i]) != key(rows[j]));
            }
        }
        filter_keeps_distinct(front, key, keep);
        if keep(last) {
            let kept = front.filter(keep);
            filter_keeps_exactly(front, keep);
            assert forall|i: int, j: int|
                #![trigger kept.push(last)[i], kept.push(last)[j]]
                0 <= i < j < kept.push(last).len() implies key(kept.push(last)[i]) != key(
                kept.push(last)[j],
            ) by {
                if j < kept.len() {
                    assert(key(kept[i]) != key(kept[j]));
                } else {
                    assert(front.contains(kept[i]));
                    let k = choose|k: int| 0 <= k < front.len() && front[k] == kept[i];
                    assert(key(rows[k]) != key(rows[rows.len() - 1]));
                }
            }
        }
    }
}

/// Two rows of a sequence with distinct keys that have one key stand at one
/// place.
pub proof fn same_key_same_place<T, K>(rows: Seq<T>, key: spec_fn(T) -> K, a: int, b: int)
    requires
        distinct_by(rows, key),
        0 <= a < rows.len(),
        0 <= b < rows.len(),
        key(rows[a]) == key(rows[b]),
    ensures
        a == b,
{
    if a < b {
        assert(key(rows[a]) != key(rows[b]));
    }
    if b < a {
        assert(key(rows[b]) != key(rows[a]));
    }
}

/// A filter that no row passes leaves nothing.
pub proof fn filter_of_none<T>(rows: Seq<T>, keep: spec_fn(T) -> bool)
    requires
        forall|i: int| 0 <= i < rows.len() ==> !keep(#[trigger] rows[i]),
    ensures
        rows.filter(keep) == Seq::<T>::empty(),
{
    filter_keeps_exactly(rows, keep);
    let left = rows.filter(keep);
    if left.len() > 0 {
        assert(rows.contains(left[0]));
        let k = choose|k: int| 0 <= k < rows.len() && rows[k] == left[0];
        assert(!keep(rows[k]));
    }
    assert(left =~= Seq::<T>::empty());
}

/// Among rows with distinct keys, a filter that only one key passes lets
/// at most one row through.
pub proof fn filter_of_one_key<T, K>(
    rows: Seq<T>,
    key: spec_fn(T) -> K,
    wanted: K,
    keep: spec_fn(T) -> bool,
)
    requires
        distinct_by(rows, key),
        forall|i: int| 0 <= i < rows.len() && keep(#[trigger] rows[i]) ==> key(rows[i]) == wanted,
    ensures
        rows.filter(keep).len() <= 1,
{
    filter_keeps_exactly(rows, keep);
    filter_keeps_distinct(rows, key, keep);
    let left = rows.filter(keep);
    if left.len() >= 2 {
        assert(rows.contains(left[0]));
        assert(rows.contains(left[1]));
        let a = choose|a: int| 0 <= a < rows.len() && rows[a] == left[0];
        let b = choose|b: int| 0 <= b < rows.len() && rows[b] == left[1];
        assert(keep(rows[a]) && keep(rows[b]));
        assert(key(left[0]) != key(left[1]));
    }
}

/// A filter that some row passes lets at least one row through.
pub proof fn filter_of_some<T>(rows: Seq<T>, keep: spec_fn(T) -> bool, at: int)
    requires
        0 <= at < rows.len(),
        keep(rows[at]),
    ensures
        rows.filter(keep).len() >= 1,
        rows.filter(keep).contains(rows[at]),
{
    filter_keeps_exactly(rows, keep);
}

} // verus!
