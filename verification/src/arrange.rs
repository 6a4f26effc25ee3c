//! The order in which a table shows its rows: sorted by the value of the chosen
//! column, rows with equal values keeping their order, and the whole turned round
//! when the table is ordered downwards.
use vstd::prelude::*;

use crate::ui_state::OrderByState;

verus! {

/// Row `a` comes before row `b` upwards: its key is smaller, or the keys are equal
/// and it came first.
pub open spec fn precedes(keys: Seq<i64>, a: int, b: int) -> bool {
    keys[a] < keys[b] || (keys[a] == keys[b] && a < b)
}

/// `rows` lists row numbers below `n` in strictly increasing `precedes` order.
pub open spec fn upward(keys: Seq<i64>, rows: Seq<usize>, n: int) -> bool {
    &&& forall|i: int| 0 <= i < rows.len() ==> #[trigger] rows[i] < n
    &&& forall|i: int, j: int|
        0 <= i < j < rows.len() ==> precedes(keys, #[trigger] rows[i] as int, #[trigger] rows[j] as int)
}

/// The rows `0..keys.len()` sorted upwards by key, equal keys in their first order.
fn sort_upward(keys: &Vec<i64>) -> (r: Vec<usize>)
    ensures
        r@.len() == keys@.len(),
        upward(keys@, r@, keys@.len() as int),
{
    let mut r: Vec<usize> = Vec::new();
    let mut k: usize = 0;
    while k < keys.len()
        invariant
            k <= keys@.len(),
            r@.len() == k,
            upward(keys@, r@, k as int),
        decreases keys@.len() - k,
    {
        let mut p: usize = 0;
        while p < r.len() && keys[r[p]] <= keys[k]
            invariant
                p <= r@.len(),
                r@.len() == k,
                k < keys@.len(),
                upward(keys@, r@, k as int),
                forall|q: int| 0 <= q < p ==> keys@[#[trigger] r@[q] as int] <= keys@[k as int],
            decreases r@.len() - p,
        {
            p = p + 1;
        }
        proof {
            assert forall|q: int| p <= q < r@.len() implies keys@[k as int] < keys@[#[trigger] r@[q] as int] by {
                if q > p {
                    assert(precedes(keys@, r@[p as int] as int, r@[q] as int));
                }
            }
        }
        let ghost old_r = r@;
        r.insert(p, k);
        proof {
            assert(r@ == old_r.insert(p as int, k));
            assert forall|i: int| 0 <= i < r@.len() implies #[trigger] r@[i] < k + 1 by {
                if i < p {
                    assert(r@[i] == old_r[i]);
                } else if i > p {
                    assert(r@[i] == old_r[i - 1]);
                }
            }
            assert forall|i: int, j: int| 0 <= i < j < r@.len() implies precedes(
                keys@,
                #[trigger] r@[i] as int,
                #[trigger] r@[j] as int,
            ) by {
                if j < p {
                    assert(r@[i] == old_r[i] && r@[j] == old_r[j]);
                    assert(precedes(keys@, old_r[i] as int, old_r[j] as int));
                } else if j == p {
                    assert(r@[i] == old_r[i]);
                    assert(keys@[old_r[i] as int] <= keys@[k as int]);
                    assert(old_r[i] < k);
                } else if i < p {
                    assert(r@[i] == old_r[i] && r@[j] == old_r[j - 1]);
                    assert(precedes(keys@, old_r[i] as int, old_r[j - 1] as int));
                } else if i == p {
                    assert(r@[j] == old_r[j - 1]);
                    assert(keys@[k as int] < keys@[old_r[j - 1] as int]);
                } else {
                    assert(r@[i] == old_r[i - 1] && r@[j] == old_r[j - 1]);
                    assert(precedes(keys@, old_r[i - 1] as int, old_r[j - 1] as int));
                }
            }
        }
        k = k + 1;
    }
    r
}

impl OrderByState {
    /// The order in which a table shows its rows, given the value of the ordering's
    /// column for each row (`keys[i]` for row `i`): every row once, sorted upwards by
    /// key with equal keys in their first order, and that whole list reversed when
    /// the ordering is downwards.
    pub fn arrange(&self, keys: &Vec<i64>) -> (r: Vec<usize>)
        ensures
            r@.len() == keys@.len(),
            self.descending ==> upward(keys@, r@.reverse(), keys@.len() as int),
            !self.descending ==> upward(keys@, r@, keys@.len() as int),
    {
        let up = sort_upward(keys);
        if !self.descending {
            return up;
        }
        let mut r: Vec<usize> = Vec::new();
        let mut i: usize = up.len();
        while i > 0
            invariant
                i <= up@.len(),
                r@.len() == up@.len() - i,
                forall|j: int| 0 <= j < r@.len() ==> #[trigger] r@[j] == up@[up@.len() - 1 - j],
            decreases i,
        {
            i = i - 1;
            r.push(up[i]);
        }
        proof {
            assert(r@.reverse() =~= up@);
        }
        r
    }
}

} // verus!
