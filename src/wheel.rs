//! Index arithmetic shared by the selectors: a draw on a cumulative weight
//! table and the first maximal entry of a score list.
use crate::genotype::GenoType;
use vstd::prelude::*;

verus! {

/// `prefix` never decreases along its indices.
pub open spec fn non_decreasing(prefix: Seq<u128>) -> bool {
    forall|i: int, j: int| 0 <= i <= j < prefix.len() ==> prefix[i] <= prefix[j]
}

/// `r` is the entry that a draw of `target` lands on: the first index whose
/// cumulative weight exceeds `target`, or the last index when none does.
pub open spec fn is_pick(prefix: Seq<u128>, target: int, r: int) -> bool {
    &&& 0 <= r < prefix.len()
    &&& (prefix[r] > target || r == prefix.len() - 1)
    &&& forall|j: int| 0 <= j < r ==> prefix[j] <= target
}

/// Binary search of the cumulative weight table `prefix` for `target`.
pub fn weighted_index(prefix: &Vec<u128>, target: u128) -> (r: usize)
    requires
        prefix@.len() > 0,
        non_decreasing(prefix@),
    ensures
        is_pick(prefix@, target as int, r as int),
{
    let mut low: usize = 0;
    let mut high: usize = prefix.len();
    while low < high
        invariant
            low <= high <= prefix@.len(),
            non_decreasing(prefix@),
            forall|j: int| 0 <= j < low ==> prefix@[j] <= target,
            forall|j: int| high <= j < prefix@.len() ==> prefix@[j] > target,
        decreases high - low,
    {
        let mid: usize = low + (high - low) / 2;
        if prefix[mid] <= target {
            low = mid + 1;
        } else {
            high = mid;
        }
    }
    if low < prefix.len() {
        low
    } else {
        prefix.len() - 1
    }
}

/// `r` is the first index that holds the largest score of `scores`.
pub open spec fn is_first_best(scores: Seq<i64>, r: int) -> bool {
    &&& 0 <= r < scores.len()
    &&& forall|j: int| 0 <= j < scores.len() ==> scores[j] <= scores[r]
    &&& forall|j: int| 0 <= j < r ==> scores[j] < scores[r]
}

/// Linear scan for the first maximal score; a later entry replaces the running
/// best only when it is strictly greater.
pub fn first_best(scores: &Vec<i64>) -> (r: usize)
    requires
        scores@.len() > 0,
    ensures
        is_first_best(scores@, r as int),
{
    let mut best: usize = 0;
    let mut i: usize = 1;
    while i < scores.len()
        invariant
            0 <= best < i <= scores@.len(),
            forall|j: int| 0 <= j < i ==> scores@[j] <= scores@[best as int],
            forall|j: int| 0 <= j < best ==> scores@[j] < scores@[best as int],
        decreases scores@.len() - i,
    {
        if scores[i] > scores[best] {
            best = i;
        }
        i = i + 1;
    }
    best
}


/// Genotypes laid out on a wheel: entry `k` covers the draws from
/// `prefix[k - 1]` (or 0) up to, not including, `prefix[k]`.
pub struct Wheel<G: GenoType> {
    genes: Vec<G>,
    prefix: Vec<u128>,
}

impl<G: GenoType> Wheel<G> {
    #[verifier::type_invariant]
    spec fn well_formed(&self) -> bool {
        &&& self.genes@.len() == self.prefix@.len()
        &&& non_decreasing(self.prefix@)
    }

    pub closed spec fn genes(&self) -> Seq<G> {
        self.genes@
    }

    /// The cumulative weights, one per genotype.
    pub closed spec fn table(&self) -> Seq<u128> {
        self.prefix@
    }

    /// The sum of all weights: the last cumulative weight, or 0.
    pub open spec fn spec_total(&self) -> int {
        if self.table().len() == 0 {
            0
        } else {
            self.table().last() as int
        }
    }

    pub fn empty() -> (r: Wheel<G>)
        ensures
            r.genes().len() == 0,
            r.table().len() == 0,
    {
        Wheel { genes: Vec::new(), prefix: Vec::new() }
    }

    pub fn new(genes: Vec<G>, prefix: Vec<u128>) -> (r: Wheel<G>)
        requires
            genes@.len() == prefix@.len(),
            non_decreasing(prefix@),
        ensures
            r.genes() == genes@,
            r.table() == prefix@,
    {
        Wheel { genes, prefix }
    }

    pub fn len(&self) -> (r: usize)
        ensures
            r == self.genes().len(),
    {
        proof {
            use_type_invariant(self);
        }
        self.genes.len()
    }

    pub fn total(&self) -> (r: u128)
        ensures
            r == self.spec_total(),
    {
        proof {
            use_type_invariant(self);
        }
        if self.prefix.len() == 0 {
            0
        } else {
            self.prefix[self.prefix.len() - 1]
        }
    }

    /// A copy of the genotype that a draw of `target` lands on; nothing on an
    /// empty wheel.
    pub fn pick(&self, target: u128) -> (r: Option<G>)
        ensures
            r.is_none() == (self.genes().len() == 0),
            r.is_some() ==> exists|k: int|
                #[trigger] is_pick(self.table(), target as int, k) && cloned(self.genes()[k], r.unwrap()),
    {
        proof {
            use_type_invariant(self);
        }
        if self.prefix.len() == 0 {
            return None;
        }
        let k = weighted_index(&self.prefix, target);
        let g = self.genes[k].clone();
        assert(is_pick(self.table(), target as int, k as int));
        Some(g)
    }
}

} // verus!
