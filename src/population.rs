//! One generation's snapshot of genotypes with the fitness each had when the
//! snapshot was taken.
use crate::genotype::GenoType;
use crate::wheel::is_first_best;
use vstd::prelude::*;

verus! {

/// The fitness column of a snapshot.
pub open spec fn fitness_column<G>(entries: Seq<(G, i64)>) -> Seq<i64> {
    entries.map_values(|e: (G, i64)| e.1)
}

/// The genotype column of a snapshot.
pub open spec fn genotype_column<G>(entries: Seq<(G, i64)>) -> Seq<G> {
    entries.map_values(|e: (G, i64)| e.0)
}

/// Every entry of the snapshot holds the fitness of its genotype.
pub open spec fn scored<G: GenoType>(entries: Seq<(G, i64)>) -> bool {
    forall|k: int| 0 <= k < entries.len() ==> #[trigger] entries[k].1 == entries[k].0.score()
}

/// `v` in the opposite order.
pub(crate) fn reversed<T>(v: Vec<T>) -> (r: Vec<T>)
    ensures
        r@.len() == v@.len(),
        forall|k: int| 0 <= k < v@.len() ==> #[trigger] r@[k] == v@[v@.len() - 1 - k],
{
    let ghost input = v@;
    let mut src = v;
    let mut out: Vec<T> = Vec::new();
    while src.len() > 0
        invariant
            src@.len() + out@.len() == input.len(),
            forall|k: int| 0 <= k < src@.len() ==> #[trigger] src@[k] == input[k],
            forall|k: int|
                0 <= k < out@.len() ==> #[trigger] out@[k] == input[input.len() - 1 - k],
        decreases src@.len(),
    {
        let x = src.pop().unwrap();
        out.push(x);
    }
    out
}

/// Genotypes paired with their fitness, in the order they were given.
pub struct Population<G: GenoType> {
    inner: Vec<(G, i64)>,
}

impl<G: GenoType> View for Population<G> {
    type V = Seq<(G, i64)>;

    closed spec fn view(&self) -> Seq<(G, i64)> {
        self.inner@
    }
}

impl<G: GenoType> Population<G> {
    #[verifier::type_invariant]
    spec fn well_formed(&self) -> bool {
        scored(self.inner@)
    }

    /// Scores every genotype once and keeps them in the given order.
    pub fn from(v: Vec<G>) -> (r: Population<G>)
        ensures
            r@.len() == v@.len(),
            genotype_column(r@) == v@,
            scored(r@),
    {
        let ghost input = v@;
        let mut rest = reversed(v);
        let mut inner: Vec<(G, i64)> = Vec::new();
        while rest.len() > 0
            invariant
                inner@.len() + rest@.len() == input.len(),
                forall|k: int| 0 <= k < inner@.len() ==> #[trigger] inner@[k].0 == input[k],
                forall|k: int|
                    0 <= k < rest@.len() ==> #[trigger] rest@[k] == input[input.len() - 1 - k],
                scored(inner@),
            decreases rest@.len(),
        {
            let g = rest.pop().unwrap();
            let f = g.fitness();
            inner.push((g, f));
        }
        let r = Population { inner };
        assert(genotype_column(r@) =~= input);
        r
    }

    pub fn len(&self) -> (r: usize)
        ensures
            r == self@.len(),
    {
        self.inner.len()
    }

    pub fn is_empty(&self) -> (r: bool)
        ensures
            r == (self@.len() == 0),
    {
        self.inner.len() == 0
    }

    /// The genotype with the largest fitness; on ties the first of them in
    /// storage order. Nothing for an empty population.
    pub fn get_best(&self) -> (r: Option<&G>)
        ensures
            r.is_none() == (self@.len() == 0),
            r.is_some() ==> exists|k: int|
                is_first_best(fitness_column(self@), k) && *r.unwrap() == self@[k].0,
            r.is_some() ==> forall|j: int|
                0 <= j < self@.len() ==> #[trigger] self@[j].0.score() <= r.unwrap().score(),
    {
        proof {
            use_type_invariant(self);
        }
        if self.inner.len() == 0 {
            return None;
        }
        let mut best: usize = 0;
        let mut i: usize = 1;
        while i < self.inner.len()
            invariant
                0 <= best < i <= self@.len(),
                forall|j: int| 0 <= j < i ==> self@[j].1 <= self@[best as int].1,
                forall|j: int| 0 <= j < best ==> self@[j].1 < self@[best as int].1,
            decreases self@.len() - i,
        {
            if self.inner[i].1 > self.inner[best].1 {
                best = i;
            }
            i = i + 1;
        }
        assert(is_first_best(fitness_column(self@), best as int));
        Some(&self.inner[best].0)
    }

    /// The snapshot as a slice of (genotype, fitness) pairs.
    pub fn entries(&self) -> (r: &[(G, i64)])
        ensures
            r@ == self@,
            scored(r@),
    {
        proof {
            use_type_invariant(self);
        }
        self.inner.as_slice()
    }
}

} // verus!
