//! The generational loop: selection, crossover, mutation and rebuild of the
//! population, with the configuration that a run is built from.
use crate::genotype::{GenoType, Inspector, Roulette};
use crate::population::{genotype_column, reversed, Population};
use crate::random::{draw_below, entropy_rng, seeded_rng};
use rand::rngs::StdRng;
use vstd::prelude::*;

verus! {

/// A probability `numerator / denominator`, at most 1.
pub struct Probability {
    numerator: u64,
    denominator: u64,
}

impl Probability {
    #[verifier::type_invariant]
    spec fn well_formed(&self) -> bool {
        0 < self.denominator && self.numerator <= self.denominator
    }

    pub closed spec fn num(&self) -> u64 {
        self.numerator
    }

    pub closed spec fn den(&self) -> u64 {
        self.denominator
    }

    /// The probability `numerator / denominator`, where that is in [0, 1].
    pub fn new(numerator: u64, denominator: u64) -> (r: Option<Probability>)
        ensures
            r.is_some() == (0 < denominator && numerator <= denominator),
            r.is_some() ==> r.unwrap().num() == numerator && r.unwrap().den() == denominator,
    {
        if 0 < denominator && numerator <= denominator {
            Some(Probability { numerator, denominator })
        } else {
            None
        }
    }

    /// Whether a uniform draw `r` below the denominator falls on the event.
    pub fn hits(&self, r: u128) -> (b: bool)
        ensures
            b == (r < self.num()),
    {
        r < self.numerator as u128
    }

    /// One trial: a uniform draw below the denominator, which hits when it is
    /// below the numerator.
    fn trial(&self, rng: &mut StdRng) -> (b: bool)
        ensures
            b ==> self.num() > 0,
            !b ==> self.num() < self.den(),
    {
        proof {
            use_type_invariant(self);
        }
        let r = draw_below(rng, self.denominator as u128);
        self.hits(r)
    }
}

/// `n` independent trials of `rate`.
fn trials(rng: &mut StdRng, rate: &Probability, n: usize) -> (r: Vec<bool>)
    ensures
        r@.len() == n,
        forall|k: int| 0 <= k < n ==> #[trigger] r@[k] ==> rate.num() > 0,
        forall|k: int| 0 <= k < n ==> !#[trigger] r@[k] ==> rate.num() < rate.den(),
{
    let mut v: Vec<bool> = Vec::new();
    let mut i: usize = 0;
    while i < n
        invariant
            i <= n,
            v@.len() == i,
            forall|k: int| 0 <= k < i ==> #[trigger] v@[k] ==> rate.num() > 0,
            forall|k: int| 0 <= k < i ==> !#[trigger] v@[k] ==> rate.num() < rate.den(),
        decreases n - i,
    {
        v.push(rate.trial(rng));
        i = i + 1;
    }
    v
}

/// The pairs laid out flat: the first of each pair, then the second.
pub open spec fn flat_pairs<G>(pairs: Seq<(G, G)>) -> Seq<G> {
    Seq::new(
        2 * pairs.len(),
        |i: int|
            if i % 2 == 0 {
                pairs[i / 2].0
            } else {
                pairs[i / 2].1
            },
    )
}

/// Recombines each pair whose entry of `hits` is set, leaves the others as
/// they are, and lays the pairs out flat.
pub fn recombine<G: GenoType>(parents: Vec<(G, G)>, hits: &Vec<bool>) -> (r: Vec<G>)
    requires
        hits@.len() == parents@.len(),
    ensures
        r@.len() == 2 * parents@.len(),
        forall|k: int|
            0 <= k < parents@.len() && !#[trigger] hits@[k] ==> r@[2 * k] == parents@[k].0 && r@[2
                * k + 1] == parents@[k].1,
{
    let ghost input = parents@;
    let mut rest = reversed(parents);
    let mut out: Vec<G> = Vec::new();
    let n = hits.len();
    let mut i: usize = 0;
    while rest.len() > 0
        invariant
            hits@.len() == input.len(),
            n == input.len(),
            i + rest@.len() == input.len(),
            out@.len() == 2 * i,
            forall|k: int|
                0 <= k < rest@.len() ==> #[trigger] rest@[k] == input[input.len() - 1 - k],
            forall|k: int|
                0 <= k < i && !#[trigger] hits@[k] ==> out@[2 * k] == input[k].0 && out@[2 * k
                    + 1] == input[k].1,
        decreases rest@.len(),
    {
        let (mut a, mut b) = rest.pop().unwrap();
        if hits[i] {
            G::crossover(&mut a, &mut b);
        }
        out.push(a);
        out.push(b);
        i = i + 1;
    }
    out
}

/// Mutates each genotype whose entry of `hits` is set and leaves the others
/// as they are.
pub fn mutate_marked<G: GenoType>(children: Vec<G>, hits: &Vec<bool>) -> (r: Vec<G>)
    requires
        hits@.len() == children@.len(),
    ensures
        r@.len() == children@.len(),
        forall|k: int| 0 <= k < children@.len() && !#[trigger] hits@[k] ==> r@[k] == children@[k],
{
    let ghost input = children@;
    let mut rest = reversed(children);
    let mut out: Vec<G> = Vec::new();
    let n = hits.len();
    let mut i: usize = 0;
    while rest.len() > 0
        invariant
            hits@.len() == input.len(),
            n == input.len(),
            i + rest@.len() == input.len(),
            out@.len() == i,
            forall|k: int|
                0 <= k < rest@.len() ==> #[trigger] rest@[k] == input[input.len() - 1 - k],
            forall|k: int| 0 <= k < i && !#[trigger] hits@[k] ==> out@[k] == input[k],
        decreases rest@.len(),
    {
        let mut g = rest.pop().unwrap();
        if hits[i] {
            g.mutate();
        }
        out.push(g);
        i = i + 1;
    }
    out
}


/// Consecutive draws paired up: pair `i` is draws `2i` and `2i + 1`.
pub open spec fn paired<G>(draws: Seq<G>) -> Seq<(G, G)> {
    Seq::new(draws.len() / 2, |i: int| (draws[2 * i], draws[2 * i + 1]))
}

/// Pairs up consecutive draws in draw order; an odd last draw is left out.
pub fn pair_up<G>(draws: Vec<G>) -> (r: Vec<(G, G)>)
    ensures
        r@ == paired(draws@),
{
    let ghost input = draws@;
    let mut rest = reversed(draws);
    let half = rest.len() / 2;
    let mut out: Vec<(G, G)> = Vec::new();
    let mut i: usize = 0;
    while i < half
        invariant
            half == input.len() / 2,
            i <= half,
            rest@.len() + 2 * i == input.len(),
            out@.len() == i,
            forall|k: int|
                0 <= k < rest@.len() ==> #[trigger] rest@[k] == input[input.len() - 1 - k],
            forall|k: int| 0 <= k < i ==> #[trigger] out@[k] == (input[2 * k], input[2 * k + 1]),
        decreases half - i,
    {
        let a = rest.pop().unwrap();
        let b = rest.pop().unwrap();
        out.push((a, b));
        i = i + 1;
    }
    assert(out@ =~= paired(input));
    out
}

/// One run of the engine over a population.
pub struct Simulator<G: GenoType, I: Inspector<G>, R: Roulette<G>> {
    population: Population<G>,
    inspector: I,
    crossover_rate: Probability,
    mutation_rate: Probability,
    selector: R,
    rng: StdRng,
}

impl<G: GenoType, I: Inspector<G>, R: Roulette<G>> Simulator<G, I, R> {
    /// The current generation.
    pub closed spec fn current(&self) -> Population<G> {
        self.population
    }

    pub closed spec fn spec_inspector(&self) -> I {
        self.inspector
    }

    pub closed spec fn spec_crossover_rate(&self) -> Probability {
        self.crossover_rate
    }

    pub closed spec fn spec_mutation_rate(&self) -> Probability {
        self.mutation_rate
    }

    pub closed spec fn spec_selector(&self) -> R {
        self.selector
    }

    /// A run whose random source is seeded from the operating system.
    pub fn new(
        population: Population<G>,
        inspector: I,
        crossover_rate: Probability,
        mutation_rate: Probability,
        selector: R,
    ) -> (r: Self)
        ensures
            r.current() == population,
            r.spec_inspector() == inspector,
            r.spec_crossover_rate() == crossover_rate,
            r.spec_mutation_rate() == mutation_rate,
            r.spec_selector() == selector,
    {
        Simulator {
            population,
            inspector,
            crossover_rate,
            mutation_rate,
            selector,
            rng: entropy_rng(),
        }
    }

    /// The current generation.
    pub fn population(&self) -> (r: &Population<G>)
        ensures
            *r == self.current(),
    {
        &self.population
    }

    /// Indexes the current generation in the selector, draws twice as many
    /// genotypes as there are pairs to form, and pairs them up in draw order.
    fn select_pairs(&mut self) -> (r: Vec<(G, G)>)
        ensures
            final(self).current() == old(self).current(),
            final(self).spec_inspector() == old(self).spec_inspector(),
            final(self).spec_crossover_rate() == old(self).spec_crossover_rate(),
            final(self).spec_mutation_rate() == old(self).spec_mutation_rate(),
            r@.len() == old(self).current()@.len() / 2,
    {
        self.selector.reset(self.population.entries());
        let n = self.population.len();
        let wanted = 2 * (n / 2);
        let mut draws: Vec<G> = Vec::new();
        let mut i: usize = 0;
        while i < wanted
            invariant
                self.population == old(self).population,
                self.inspector == old(self).inspector,
                self.crossover_rate == old(self).crossover_rate,
                self.mutation_rate == old(self).mutation_rate,
                n == old(self).current()@.len(),
                wanted == 2 * (n / 2),
                n > 0 ==> self.selector.ready(),
                i <= wanted,
                draws@.len() == i,
            decreases wanted - i,
        {
            draws.push(self.selector.draw());
            i = i + 1;
        }
        pair_up(draws)
    }

    /// Crossover, mutation and rebuild on drawn parents: each pair is
    /// recombined with the crossover rate, laid out flat, each child mutated
    /// with the mutation rate, and every child scored anew. Where both rates
    /// are 0 the children are the parents, in draw order.
    pub fn breed(&mut self, parents: Vec<(G, G)>) -> (r: Population<G>)
        ensures
            final(self).current() == old(self).current(),
            final(self).spec_inspector() == old(self).spec_inspector(),
            final(self).spec_crossover_rate() == old(self).spec_crossover_rate(),
            final(self).spec_mutation_rate() == old(self).spec_mutation_rate(),
            r@.len() == 2 * parents@.len(),
            old(self).spec_crossover_rate().num() == 0 && old(self).spec_mutation_rate().num() == 0
                ==> genotype_column(r@) == flat_pairs(parents@),
    {
        let ghost drawn = parents@;
        let cross = trials(&mut self.rng, &self.crossover_rate, parents.len());
        let children = recombine(parents, &cross);
        let ghost flat = children@;
        let muts = trials(&mut self.rng, &self.mutation_rate, children.len());
        let children = mutate_marked(children, &muts);
        proof {
            if self.crossover_rate.num() == 0 && self.mutation_rate.num() == 0 {
                assert forall|i: int| 0 <= i < children@.len() implies children@[i]
                    == flat_pairs(drawn)[i] by {
                    assert(!muts@[i]);
                    assert(!cross@[i / 2]);
                    if i % 2 == 0 {
                        assert(i == 2 * (i / 2));
                    } else {
                        assert(i == 2 * (i / 2) + 1);
                    }
                }
                assert(children@ =~= flat_pairs(drawn));
            }
        }
        Population::from(children)
    }

    /// One generation: selection, crossover, mutation and rebuild. The new
    /// generation replaces the current one; it has `2 * (N / 2)` members for
    /// `N` before, so an odd size loses one.
    pub fn step_generation(&mut self)
        ensures
            final(self).spec_inspector() == old(self).spec_inspector(),
            final(self).spec_crossover_rate() == old(self).spec_crossover_rate(),
            final(self).spec_mutation_rate() == old(self).spec_mutation_rate(),
            final(self).current()@.len() == 2 * (old(self).current()@.len() / 2),
            old(self).current()@.len() % 2 == 1 ==> final(self).current()@.len() == old(
                self,
            ).current()@.len() - 1,
    {
        let pairs = self.select_pairs();
        let next = self.breed(pairs);
        self.population = next;
    }

    /// Hands the current generation, numbered `generation`, to the inspector;
    /// its answer says whether the run goes on.
    pub fn inspect(&mut self, generation: usize) -> (r: bool)
        ensures
            final(self).current() == old(self).current(),
            final(self).spec_crossover_rate() == old(self).spec_crossover_rate(),
            final(self).spec_mutation_rate() == old(self).spec_mutation_rate(),
    {
        self.inspector.inspect(generation, &self.population)
    }

    /// Breeds generation number `generation` and inspects it: `true` when the
    /// run goes on, `false` when the inspector stops it. The generation
    /// handed to the inspector has `2 * (N / 2)` members for `N` before.
    pub fn run_generation(&mut self, generation: usize) -> (r: bool)
        ensures
            final(self).current()@.len() == 2 * (old(self).current()@.len() / 2),
            final(self).spec_crossover_rate() == old(self).spec_crossover_rate(),
            final(self).spec_mutation_rate() == old(self).spec_mutation_rate(),
    {
        self.step_generation();
        self.inspect(generation)
    }
}

/// The configuration field that a build found missing.
#[derive(Clone, Copy, Debug, PartialEq, Eq, Structural)]
pub enum BuildError {
    MissingPopulation,
    MissingInspector,
    MissingCrossoverRate,
    MissingMutationRate,
    MissingSelector,
}

/// Collects the configuration of a run; `build` checks it once.
pub struct SimulatorBuilder<G: GenoType, I: Inspector<G>, R: Roulette<G>> {
    population: Option<Population<G>>,
    inspector: Option<I>,
    crossover_rate: Option<Probability>,
    mutation_rate: Option<Probability>,
    selector: Option<R>,
    seed: Option<u64>,
}

impl<G: GenoType, I: Inspector<G>, R: Roulette<G>> SimulatorBuilder<G, I, R> {
    pub closed spec fn spec_population(&self) -> Option<Population<G>> {
        self.population
    }

    pub closed spec fn spec_inspector(&self) -> Option<I> {
        self.inspector
    }

    pub closed spec fn spec_crossover_rate(&self) -> Option<Probability> {
        self.crossover_rate
    }

    pub closed spec fn spec_mutation_rate(&self) -> Option<Probability> {
        self.mutation_rate
    }

    pub closed spec fn spec_selector(&self) -> Option<R> {
        self.selector
    }

    pub closed spec fn spec_seed(&self) -> Option<u64> {
        self.seed
    }

    /// A builder with nothing set.
    pub fn new() -> (r: Self)
        ensures
            r.spec_population().is_none(),
            r.spec_inspector().is_none(),
            r.spec_crossover_rate().is_none(),
            r.spec_mutation_rate().is_none(),
            r.spec_selector().is_none(),
            r.spec_seed().is_none(),
    {
        SimulatorBuilder {
            population: None,
            inspector: None,
            crossover_rate: None,
            mutation_rate: None,
            selector: None,
            seed: None,
        }
    }

    pub fn with_population(self, population: Population<G>) -> (r: Self)
        ensures
            r.spec_population() == Some(population),
            r.spec_inspector() == self.spec_inspector(),
            r.spec_crossover_rate() == self.spec_crossover_rate(),
            r.spec_mutation_rate() == self.spec_mutation_rate(),
            r.spec_selector() == self.spec_selector(),
            r.spec_seed() == self.spec_seed(),
    {
        SimulatorBuilder { population: Some(population), ..self }
    }

    pub fn with_inspector(self, inspector: I) -> (r: Self)
        ensures
            r.spec_population() == self.spec_population(),
            r.spec_inspector() == Some(inspector),
            r.spec_crossover_rate() == self.spec_crossover_rate(),
            r.spec_mutation_rate() == self.spec_mutation_rate(),
            r.spec_selector() == self.spec_selector(),
            r.spec_seed() == self.spec_seed(),
    {
        SimulatorBuilder { inspector: Some(inspector), ..self }
    }

    pub fn with_crossover_rate(self, rate: Probability) -> (r: Self)
        ensures
            r.spec_population() == self.spec_population(),
            r.spec_inspector() == self.spec_inspector(),
            r.spec_crossover_rate() == Some(rate),
            r.spec_mutation_rate() == self.spec_mutation_rate(),
            r.spec_selector() == self.spec_selector(),
            r.spec_seed() == self.spec_seed(),
    {
        SimulatorBuilder { crossover_rate: Some(rate), ..self }
    }

    pub fn with_mutation_rate(self, rate: Probability) -> (r: Self)
        ensures
            r.spec_population() == self.spec_population(),
            r.spec_inspector() == self.spec_inspector(),
            r.spec_crossover_rate() == self.spec_crossover_rate(),
            r.spec_mutation_rate() == Some(rate),
            r.spec_selector() == self.spec_selector(),
            r.spec_seed() == self.spec_seed(),
    {
        SimulatorBuilder { mutation_rate: Some(rate), ..self }
    }

    pub fn with_selector(self, selector: R) -> (r: Self)
        ensures
            r.spec_population() == self.spec_population(),
            r.spec_inspector() == self.spec_inspector(),
            r.spec_crossover_rate() == self.spec_crossover_rate(),
            r.spec_mutation_rate() == self.spec_mutation_rate(),
            r.spec_selector() == Some(selector),
            r.spec_seed() == self.spec_seed(),
    {
        SimulatorBuilder { selector: Some(selector), ..self }
    }

    pub fn with_seed(self, seed: u64) -> (r: Self)
        ensures
            r.spec_population() == self.spec_population(),
            r.spec_inspector() == self.spec_inspector(),
            r.spec_crossover_rate() == self.spec_crossover_rate(),
            r.spec_mutation_rate() == self.spec_mutation_rate(),
            r.spec_selector() == self.spec_selector(),
            r.spec_seed() == Some(seed),
    {
        SimulatorBuilder { seed: Some(seed), ..self }
    }

    /// The configured run, or the first missing field in the order population,
    /// inspector, crossover rate, mutation rate, selector. The run's random
    /// source is seeded with the seed where one was given.
    pub fn build(self) -> (r: Result<Simulator<G, I, R>, BuildError>)
        ensures
            r.is_ok() == (self.spec_population().is_some() && self.spec_inspector().is_some()
                && self.spec_crossover_rate().is_some() && self.spec_mutation_rate().is_some()
                && self.spec_selector().is_some()),
            self.spec_population().is_none() ==> r == Err::<Simulator<G, I, R>, BuildError>(
                BuildError::MissingPopulation,
            ),
            self.spec_population().is_some() && self.spec_inspector().is_none() ==> r == Err::<
                Simulator<G, I, R>,
                BuildError,
            >(BuildError::MissingInspector),
            self.spec_population().is_some() && self.spec_inspector().is_some()
                && self.spec_crossover_rate().is_none() ==> r == Err::<
                Simulator<G, I, R>,
                BuildError,
            >(BuildError::MissingCrossoverRate),
            self.spec_population().is_some() && self.spec_inspector().is_some()
                && self.spec_crossover_rate().is_some() && self.spec_mutation_rate().is_none()
                ==> r == Err::<Simulator<G, I, R>, BuildError>(BuildError::MissingMutationRate),
            self.spec_population().is_some() && self.spec_inspector().is_some()
                && self.spec_crossover_rate().is_some() && self.spec_mutation_rate().is_some()
                && self.spec_selector().is_none() ==> r == Err::<Simulator<G, I, R>, BuildError>(
                BuildError::MissingSelector,
            ),
            r.is_ok() ==> r.unwrap().current() == self.spec_population().unwrap()
                && r.unwrap().spec_inspector() == self.spec_inspector().unwrap()
                && r.unwrap().spec_crossover_rate() == self.spec_crossover_rate().unwrap()
                && r.unwrap().spec_mutation_rate() == self.spec_mutation_rate().unwrap()
                && r.unwrap().spec_selector() == self.spec_selector().unwrap(),
    {
        let population = match self.population {
            Some(p) => p,
            None => return Err(BuildError::MissingPopulation),
        };
        let inspector = match self.inspector {
            Some(i) => i,
            None => return Err(BuildError::MissingInspector),
        };
        let crossover_rate = match self.crossover_rate {
            Some(c) => c,
            None => return Err(BuildError::MissingCrossoverRate),
        };
        let mutation_rate = match self.mutation_rate {
            Some(m) => m,
            None => return Err(BuildError::MissingMutationRate),
        };
        let selector = match self.selector {
            Some(s) => s,
            None => return Err(BuildError::MissingSelector),
        };
        let rng = match self.seed {
            Some(s) => seeded_rng(s),
            None => entropy_rng(),
        };
        Ok(Simulator { population, inspector, crossover_rate, mutation_rate, selector, rng })
    }
}


impl<G: GenoType, I: Inspector<G>, R: Roulette<G>> Default for SimulatorBuilder<G, I, R> {
    fn default() -> (r: Self)
        ensures
            r.spec_population().is_none(),
            r.spec_inspector().is_none(),
            r.spec_crossover_rate().is_none(),
            r.spec_mutation_rate().is_none(),
            r.spec_selector().is_none(),
            r.spec_seed().is_none(),
    {
        Self::new()
    }
}

} // verus!
