//! The weighted categorical sampling primitive.
//!
//! A [`WeightedTable`] draws an index with probability proportional to its
//! weight. Construction validates the table and is the engine's only error
//! path; drawing consumes exactly one draw from the randomness source.

use vstd::prelude::*;

use crate::entropy::Entropy;
use rand_distr::Distribution;

verus! {

/// The error a generation step reports: a weight table that is empty, holds
/// a negative weight, or whose sum is zero or beyond the machine bound.
#[derive(Debug, Clone, Copy, PartialEq, Eq, Structural)]
pub enum GenError {
    InvalidWeights,
}

/// Holds rand_distr's weighted index distribution. Opaque to Verus, which
/// sees it only through `dist_weights`; only the trusted wrappers below
/// touch the field.
#[verifier::external_body]
pub struct IndexDist {
    dist: rand_distr::WeightedIndex<u64>,
}

/// The weight table a weighted index distribution holds.
pub uninterp spec fn dist_weights(d: IndexDist) -> Seq<u64>;

/// The (index, successor state) pair that one weighted draw produces out of
/// a weight table and a generator state.
pub uninterp spec fn weighted_draw(w: Seq<u64>, s: Seq<u64>) -> (usize, Seq<u64>);

/// The sum of a table of signed weights.
pub open spec fn sum_weights(w: Seq<i64>) -> int
    decreases w.len(),
{
    if w.len() == 0 {
        0
    } else {
        sum_weights(w.drop_last()) + w.last()
    }
}

/// The sum of a table of unsigned weights.
pub open spec fn sum_u64(w: Seq<u64>) -> int
    decreases w.len(),
{
    if w.len() == 0 {
        0
    } else {
        sum_u64(w.drop_last()) + w.last()
    }
}

/// A weight table the sampler accepts: non-empty, non-negative, with a
/// positive sum that fits the machine word the distribution is built over.
pub open spec fn valid_weights(w: Seq<i64>) -> bool {
    &&& w.len() > 0
    &&& forall|i: int| 0 <= i < w.len() ==> w[i] >= 0
    &&& 0 < sum_weights(w) <= u64::MAX
}

/// If every weight from position `k` on is non-negative, the sum of the
/// whole table is at least the sum of the first `k` weights.
proof fn lemma_sum_weights_suffix_nonneg(w: Seq<i64>, k: int)
    requires
        0 <= k <= w.len(),
        forall|j: int| k <= j < w.len() ==> w[j] >= 0,
    ensures
        sum_weights(w) >= sum_weights(w.take(k)),
    decreases w.len() - k,
{
    if k == w.len() {
        assert(w.take(k) =~= w);
    } else {
        let d = w.drop_last();
        assert(d.take(k) =~= w.take(k));
        lemma_sum_weights_suffix_nonneg(d, k);
    }
}

/// A weighted categorical distribution over the indices of its table.
pub struct WeightedTable {
    dist: IndexDist,
}

impl View for WeightedTable {
    type V = Seq<u64>;

    /// The table of weights this distribution was built from.
    closed spec fn view(&self) -> Seq<u64> {
        dist_weights(self.dist)
    }
}

impl WeightedTable {
    /// Every constructed table satisfies this: the weights a draw is taken
    /// over are non-empty and sum to something positive.
    pub open spec fn wf(&self) -> bool {
        &&& self@.len() > 0
        &&& 0 < sum_u64(self@) <= u64::MAX
    }

    /// Relies on `WeightedIndex::new`: it succeeds on a non-empty table of
    /// weights with positive, representable sum, and the distribution holds
    /// exactly that table.
    #[verifier::external_body]
    fn new_index(w: &Vec<u64>) -> (r: IndexDist)
        requires
            w@.len() > 0,
            0 < sum_u64(w@) <= u64::MAX,
        ensures
            dist_weights(r) == w@,
    {
        IndexDist { dist: rand_distr::WeightedIndex::new(w).unwrap() }
    }

    /// Builds the distribution for a weight table. Returns `InvalidWeights`
    /// exactly when the table is empty, holds a negative weight, or sums to
    /// zero or past `u64::MAX`; on success the table is held as given.
    pub fn new(weights: &Vec<i64>) -> (r: Result<WeightedTable, GenError>)
        ensures
            r is Ok <==> valid_weights(weights@),
            r is Ok ==> r->Ok_0@ == weights@.map_values(|x: i64| x as u64) && r->Ok_0.wf(),
            r is Err ==> r == Err::<WeightedTable, GenError>(GenError::InvalidWeights),
    {
        let n = weights.len();
        if n == 0 {
            return Err(GenError::InvalidWeights);
        }
        let mut u: Vec<u64> = Vec::new();
        let mut total: u64 = 0;
        let mut i: usize = 0;
        while i < n
            invariant
                n == weights@.len(),
                0 <= i <= n,
                u@ =~= weights@.take(i as int).map_values(|x: i64| x as u64),
                forall|j: int| 0 <= j < i ==> weights@[j] >= 0,
                total == sum_weights(weights@.take(i as int)),
                total == sum_u64(u@),
            decreases n - i,
        {
            let w = weights[i];
            if w < 0 {
                return Err(GenError::InvalidWeights);
            }
            let wu = w as u64;
            total = match total.checked_add(wu) {
                Some(t) => t,
                None => {
                    // The prefix already sums past u64::MAX. Either every
                    // remaining weight is non-negative, and then the whole
                    // sum is at least this prefix's, or some weight is
                    // negative; the table is invalid either way.
                    proof {
                        if forall|j: int| 0 <= j < weights@.len() ==> weights@[j] >= 0 {
                            assert(weights@.take(i as int + 1).drop_last() =~= weights@.take(
                                i as int,
                            ));
                            lemma_sum_weights_suffix_nonneg(weights@, i as int + 1);
                        }
                    }
                    return Err(GenError::InvalidWeights);
                },
            };
            u.push(wu);
            i += 1;
            proof {
                assert(weights@.take(i as int).drop_last() =~= weights@.take(i as int - 1));
                assert(u@.drop_last() =~= weights@.take(i as int - 1).map_values(
                    |x: i64| x as u64,
                ));
                assert(u@ =~= weights@.take(i as int).map_values(|x: i64| x as u64));
            }
        }
        proof {
            assert(weights@.take(n as int) =~= weights@);
        }
        if total == 0 {
            return Err(GenError::InvalidWeights);
        }
        let dist = Self::new_index(&u);
        Ok(WeightedTable { dist })
    }

    /// Relies on `WeightedIndex::sample`: the index never reaches past the
    /// table, an index of zero weight never comes back, and the draw, with
    /// the successor state, is a pure function of the table and of the
    /// generator state before the call.
    #[verifier::external_body]
    fn sample_index(d: &IndexDist, e: &mut Entropy) -> (r: usize)
        ensures
            r == weighted_draw(dist_weights(*d), old(e).bits()).0,
            final(e).bits() == weighted_draw(dist_weights(*d), old(e).bits()).1,
            r < dist_weights(*d).len(),
            dist_weights(*d)[r as int] > 0,
    {
        d.dist.sample(&mut e.rng)
    }

    /// Draws one index, with probability proportional to its weight;
    /// consumes exactly one draw from the source. The index stays inside
    /// the table and its weight is never zero.
    pub fn draw(&self, e: &mut Entropy) -> (r: usize)
        ensures
            r == weighted_draw(self@, old(e).bits()).0,
            final(e).bits() == weighted_draw(self@, old(e).bits()).1,
            r < self@.len(),
            self@[r as int] > 0,
    {
        Self::sample_index(&self.dist, e)
    }
}

} // verus!
