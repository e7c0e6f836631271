use vstd::prelude::*;

use crate::exemplars::{exemplar_index, others};

verus! {

/// An ordered collection of observations. The order is kept as given: the
/// results of a leave-one-out pass come back in it.
pub struct Dataset<T> {
    rows: Vec<T>,
}

/// `out` is a result that `f` may return when handed the stimulus `stim` and a
/// vector holding exactly the exemplars `exs`.
pub open spec fn returned_for<T, R, F: Fn(&T, &Vec<T>) -> R>(f: F, stim: T, exs: Seq<T>, out: R) -> bool {
    exists|ex: Vec<T>| ex@ == exs && #[trigger] f.ensures((&stim, &ex), out)
}

impl<T> View for Dataset<T> {
    type V = Seq<T>;

    closed spec fn view(&self) -> Seq<T> {
        self.rows@
    }
}

impl<T> Dataset<T> {
    /// Takes the observations as they are, with no check of size or values.
    pub fn new(rows: Vec<T>) -> (r: Self)
        ensures
            r@ == rows@,
    {
        Dataset { rows }
    }

    /// Number of observations.
    pub fn size(&self) -> (r: usize)
        ensures
            r == self@.len(),
    {
        self.rows.len()
    }

    /// The observation at position `i`.
    pub fn at(&self, i: usize) -> (r: &T)
        requires
            i < self@.len(),
        ensures
            *r == self@[i as int],
    {
        &self.rows[i]
    }
}

impl<T: Copy> Dataset<T> {
    /// The exemplars of stimulus `i`: copies of every other observation, in
    /// dataset order.
    pub fn exemplars(&self, i: usize) -> (r: Vec<T>)
        requires
            i < self@.len(),
        ensures
            r@ == others(self@, i as int),
    {
        let n = self.rows.len();
        let mut r: Vec<T> = Vec::new();
        let mut k: usize = 0;
        while k < n
            invariant
                n == self.rows@.len(),
                i < n,
                k <= n,
                r@.len() == if k <= i { k as int } else { k - 1 },
                forall|j: int| 0 <= j < r@.len() ==> #[trigger] r@[j] == self.rows@[exemplar_index(i as int, j)],
            decreases n - k,
        {
            if k != i {
                r.push(self.rows[k]);
            }
            k += 1;
        }
        assert(r@ =~= others(self@, i as int));
        r
    }

    /// Runs `predict_one` once for each observation, in dataset order, on
    /// that observation and its exemplars, and collects the results.
    pub fn leave_one_out<R, F: Fn(&T, &Vec<T>) -> R>(&self, predict_one: F) -> (r: Vec<R>)
        requires
            forall|i: int, ex: Vec<T>|
                0 <= i < self@.len() && ex@ == others(self@, i) ==> #[trigger] predict_one.requires((&self@[i], &ex)),
        ensures
            r@.len() == self@.len(),
            forall|i: int|
                0 <= i < self@.len() ==> returned_for(predict_one, self@[i], others(self@, i), #[trigger] r@[i]),
    {
        let n = self.rows.len();
        let mut r: Vec<R> = Vec::new();
        let mut i: usize = 0;
        while i < n
            invariant
                n == self@.len(),
                i <= n,
                r@.len() == i,
                forall|k: int, ex: Vec<T>|
                    0 <= k < self@.len() && ex@ == others(self@, k) ==> #[trigger] predict_one.requires((&self@[k], &ex)),
                forall|k: int|
                    0 <= k < i ==> returned_for(predict_one, self@[k], others(self@, k), #[trigger] r@[k]),
            decreases n - i,
        {
            let ex = self.exemplars(i);
            let p = predict_one(&self.rows[i], &ex);
            assert(returned_for(predict_one, self@[i as int], others(self@, i as int), p));
            r.push(p);
            i += 1;
        }
        r
    }
}

} // verus!
