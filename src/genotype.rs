//! The roles that a problem domain and a caller fill in: the encoded candidate,
//! its decoded form, the per-generation observer and the sampler.
use crate::population::Population;
use vstd::prelude::*;

verus! {

/// An encoded candidate solution. `fitness` scores the current content (higher
/// is better) and `decode` projects it for reporting; both are functions of the
/// content alone, `score` and `decoded`, and neither changes it. `mutate`
/// changes it in place and `crossover` recombines two of them in place.
pub trait GenoType: Clone + Sized {
    type PhenoType;

    /// The fitness of the current content.
    spec fn score(&self) -> i64;

    /// The decoded form of the current content.
    spec fn decoded(&self) -> Self::PhenoType;

    fn fitness(&self) -> (r: i64)
        ensures
            r == self.score(),
    ;

    fn decode(&self) -> (r: Self::PhenoType)
        ensures
            r == self.decoded(),
    ;

    fn mutate(&mut self);

    fn crossover(g1: &mut Self, g2: &mut Self);
}

/// Decoding is stable and changes nothing: two decodings of one unchanged
/// genotype give equal phenotypes, and its fitness read before and after them
/// is the same.
pub proof fn decode_is_stable<G: GenoType>(
    g: G,
    first: G::PhenoType,
    second: G::PhenoType,
    fitness_before: i64,
    fitness_after: i64,
)
    requires
        first == g.decoded(),
        second == g.decoded(),
        fitness_before == g.score(),
        fitness_after == g.score(),
    ensures
        first == second,
        fitness_before == fitness_after,
{
}

/// The decoded form of a genotype, which can be encoded back.
pub trait PhenoType {
    type GenoType: GenoType;

    fn encode(&self) -> Self::GenoType;
}

/// Observer called once per generation with its 0-based number and the rebuilt
/// population; it returns whether the run goes on.
pub trait Inspector<G: GenoType> {
    fn inspect(&mut self, generation: usize, population: &Population<G>) -> bool;
}

/// A stateful sampler over one generation. `reset` indexes the snapshot of the
/// current generation; `draw` takes one owned genotype from it. A draw is owed
/// only after a `reset` with a non-empty snapshot: drawing from an empty one
/// breaks the contract.
pub trait Roulette<G: GenoType> {
    /// The last snapshot left something to draw from.
    spec fn ready(&self) -> bool;

    fn reset(&mut self, population: &[(G, i64)])
        ensures
            population@.len() > 0 ==> final(self).ready(),
    ;

    fn draw(&mut self) -> (r: G)
        requires
            old(self).ready(),
        ensures
            final(self).ready(),
    ;
}

} // verus!
