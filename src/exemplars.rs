use vstd::prelude::*;

verus! {

/// The exemplars of stimulus `i`: every observation of `rows` but the one at
/// position `i`, in their original order.
pub open spec fn others<T>(rows: Seq<T>, i: int) -> Seq<T>
    recommends
        0 <= i < rows.len(),
{
    rows.remove(i)
}

/// Position in the dataset of the `j`-th exemplar of stimulus `i`.
pub open spec fn exemplar_index(i: int, j: int) -> int {
    if j < i {
        j
    } else {
        j + 1
    }
}

/// Position that the observation at position `k` takes once the observation
/// at position `d` has been deleted (`k != d`).
pub open spec fn index_after_removal(k: int, d: int) -> int {
    if k < d {
        k
    } else {
        k - 1
    }
}

/// A stimulus is never one of its own exemplars: stimulus `i` is compared
/// with the other `n - 1` observations, the `j`-th of them being the one at
/// position `exemplar_index(i, j)`, which is never `i`; and every observation
/// `k` other than `i` is among them, exactly once, at position
/// `index_after_removal(k, i)`.
pub proof fn lemma_stimulus_excluded<T>(rows: Seq<T>, i: int)
    requires
        0 <= i < rows.len(),
    ensures
        others(rows, i).len() == rows.len() - 1,
        forall|j: int|
            0 <= j < rows.len() - 1 ==> {
                &&& #[trigger] exemplar_index(i, j) != i
                &&& 0 <= exemplar_index(i, j) < rows.len()
                &&& others(rows, i)[j] == rows[exemplar_index(i, j)]
            },
        forall|j1: int, j2: int|
            0 <= j1 < j2 < rows.len() - 1 ==> exemplar_index(i, j1) < exemplar_index(i, j2),
        forall|k: int|
            0 <= k < rows.len() && k != i ==> {
                &&& exemplar_index(i, #[trigger] index_after_removal(k, i)) == k
                &&& others(rows, i)[index_after_removal(k, i)] == rows[k]
            },
{
    rows.remove_ensures(i);
}

/// Deleting the observation at position `d` changes what any other stimulus
/// `i` is compared with only by taking observation `d` out of its exemplars:
/// the exemplars of `i` in the shortened dataset are the exemplars of `i` in
/// the full one, less observation `d`.
pub proof fn lemma_deletion_drops_only_that_row<T>(rows: Seq<T>, d: int, i: int)
    requires
        0 <= d < rows.len(),
        0 <= i < rows.len(),
        i != d,
    ensures
        others(rows.remove(d), index_after_removal(i, d)) == others(
            others(rows, i),
            index_after_removal(d, i),
        ),
        rows.remove(d)[index_after_removal(i, d)] == rows[i],
{
    rows.remove_ensures(d);
    rows.remove_ensures(i);
    let a = rows.remove(d);
    let b = rows.remove(i);
    a.remove_ensures(index_after_removal(i, d));
    b.remove_ensures(index_after_removal(d, i));
    assert(others(a, index_after_removal(i, d)) =~= others(b, index_after_removal(d, i)));
}

} // verus!
