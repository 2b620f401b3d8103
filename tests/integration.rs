use gantan::simulator::{mutate_marked, pair_up, recombine};
use gantan::{
    BuildError, GenoType, Inspector, Population, Probability, Roulette, Simulator,
    SimulatorBuilder,
};

#[derive(Clone, Debug, PartialEq)]
struct TestGene(i32);

impl GenoType for TestGene {
    type PhenoType = i32;

    fn score(&self) -> i64 {
        self.0 as i64
    }
    fn decoded(&self) -> i32 {
        self.0
    }
    fn fitness(&self) -> i64 {
        self.0 as i64
    }
    fn decode(&self) -> Self::PhenoType {
        self.0
    }
    fn mutate(&mut self) {
        self.0 += 1;
    }
    fn crossover(g1: &mut Self, g2: &mut Self) {
        std::mem::swap(&mut g1.0, &mut g2.0);
    }
}

#[derive(Default)]
struct CycleSelector {
    inner: Vec<TestGene>,
    idx: usize,
}

impl Roulette<TestGene> for CycleSelector {
    fn ready(&self) -> bool {
        !self.inner.is_empty()
    }
    fn reset(&mut self, population: &[(TestGene, i64)]) {
        self.inner = population.iter().map(|(g, _)| g.clone()).collect();
        self.idx = 0;
    }
    fn draw(&mut self) -> TestGene {
        let i = self.idx;
        self.idx = (i + 1) % self.inner.len();
        self.inner[i].clone()
    }
}

struct LenInspector {
    first_len: usize,
    checked: bool,
}

impl Inspector<TestGene> for LenInspector {
    fn inspect(&mut self, _generation: usize, p: &Population<TestGene>) -> bool {
        if !self.checked {
            self.checked = true;
            assert_eq!(p.len(), self.first_len);
        }
        false
    }
}

/// Stops after `stop_after` generations and records the generation numbers.
struct CountInspector {
    seen: Vec<usize>,
    stop_after: usize,
}

impl Inspector<TestGene> for CountInspector {
    fn inspect(&mut self, generation: usize, _p: &Population<TestGene>) -> bool {
        self.seen.push(generation);
        self.seen.len() < self.stop_after
    }
}

struct FixedRoulette {
    draws: Vec<f64>,
    index: usize,
    inner: Vec<(TestGene, f64)>,
    sum: f64,
}

impl FixedRoulette {
    fn new(draws: Vec<f64>) -> Self {
        Self {
            draws,
            index: 0,
            inner: Vec::new(),
            sum: 0.0,
        }
    }
}

impl Roulette<TestGene> for FixedRoulette {
    fn ready(&self) -> bool {
        !self.inner.is_empty()
    }
    fn reset(&mut self, population: &[(TestGene, i64)]) {
        self.inner.clear();
        let mut last = 0.0;
        for (g, f) in population {
            last += *f as f64;
            self.inner.push((g.clone(), last));
        }
        self.sum = last;
        self.index = 0;
    }

    fn draw(&mut self) -> TestGene {
        let i = self.index;
        self.index = i + 1;
        let r = self.draws[i % self.draws.len()];
        let fit_val = r * self.sum;
        let mut low = 0usize;
        let mut high = self.inner.len();
        while low != high {
            let mid = (low + high) / 2;
            if self.inner[mid].1 <= fit_val {
                low = mid + 1;
            } else {
                high = mid;
            }
        }
        self.inner[low].0.clone()
    }
}

fn genes_of(p: &Population<TestGene>) -> Vec<i32> {
    p.entries().iter().map(|(g, _)| g.0).collect()
}

fn zero() -> Probability {
    Probability::new(0, 1).unwrap()
}

fn one() -> Probability {
    Probability::new(1, 1).unwrap()
}

fn run<R: Roulette<TestGene>>(sim: &mut Simulator<TestGene, LenInspector, R>) {
    let mut generation = 0usize;
    while sim.run_generation(generation) {
        generation += 1;
    }
}

#[test]
fn population_get_best() {
    let p = Population::from(vec![TestGene(1), TestGene(3), TestGene(2)]);
    assert_eq!(p.get_best().cloned(), Some(TestGene(3)));
}

#[test]
fn simulator_step_generation_keeps_size() {
    let genes = vec![TestGene(1), TestGene(2), TestGene(3), TestGene(4)];
    let population = Population::from(genes);
    let selector = CycleSelector::default();
    let builder = SimulatorBuilder::new()
        .with_population(population)
        .with_inspector(LenInspector {
            first_len: 4,
            checked: false,
        })
        .with_crossover_rate(zero())
        .with_mutation_rate(zero())
        .with_selector(selector);
    let mut sim = builder.build().unwrap();
    run(&mut sim);
}

#[test]
fn weighted_selector_deterministic() {
    let g1 = TestGene(1);
    let g2 = TestGene(2);
    let g3 = TestGene(3);
    let draws = vec![0.0, 0.3, 0.8];
    let mut sel = FixedRoulette::new(draws);
    sel.reset(&[
        (g1.clone(), g1.fitness()),
        (g2.clone(), g2.fitness()),
        (g3.clone(), g3.fitness()),
    ]);
    let g1 = sel.draw();
    let g2 = sel.draw();
    let g3 = sel.draw();
    assert_eq!(g1, TestGene(1));
    assert_eq!(g2, TestGene(2));
    assert_eq!(g3, TestGene(3));
}

#[test]
fn population_from_keeps_order_and_length() {
    let p = Population::from(vec![TestGene(5), TestGene(-2), TestGene(7)]);
    assert_eq!(p.len(), 3);
    assert!(!p.is_empty());
    assert_eq!(genes_of(&p), vec![5, -2, 7]);
    let fits: Vec<i64> = p.entries().iter().map(|(_, f)| *f).collect();
    assert_eq!(fits, vec![5, -2, 7]);
}

#[test]
fn population_from_empty() {
    let p: Population<TestGene> = Population::from(vec![]);
    assert_eq!(p.len(), 0);
    assert!(p.is_empty());
    assert_eq!(p.get_best(), None);
}

#[test]
fn get_best_takes_first_of_ties() {
    let p = Population::from(vec![TestGene(2), TestGene(9), TestGene(4), TestGene(9)]);
    let best = p.get_best().unwrap();
    assert!(std::ptr::eq(best, &p.entries()[1].0));
}

#[test]
fn zero_rates_reproduce_draw_order() {
    let population = Population::from(vec![TestGene(1), TestGene(2), TestGene(3), TestGene(4)]);
    let mut sim = SimulatorBuilder::new()
        .with_population(population)
        .with_inspector(LenInspector {
            first_len: 4,
            checked: false,
        })
        .with_crossover_rate(zero())
        .with_mutation_rate(zero())
        .with_selector(CycleSelector::default())
        .with_seed(3)
        .build()
        .unwrap();
    sim.step_generation();
    assert_eq!(genes_of(sim.population()), vec![1, 2, 3, 4]);
}

#[test]
fn full_rates_recombine_and_mutate() {
    let population = Population::from(vec![TestGene(1), TestGene(2), TestGene(3), TestGene(4)]);
    let mut sim = Simulator::new(population, LenInspector { first_len: 4, checked: false }, one(), one(), CycleSelector::default());
    sim.step_generation();
    // pairs (1,2), (3,4) swapped by crossover, then each incremented
    assert_eq!(genes_of(sim.population()), vec![3, 2, 5, 4]);
    let fits: Vec<i64> = sim.population().entries().iter().map(|(_, f)| *f).collect();
    assert_eq!(fits, vec![3, 2, 5, 4]);
}

#[test]
fn odd_population_loses_one() {
    let population = Population::from(vec![
        TestGene(1),
        TestGene(2),
        TestGene(3),
        TestGene(4),
        TestGene(5),
    ]);
    let mut sim = Simulator::new(population, LenInspector { first_len: 4, checked: false }, zero(), zero(), CycleSelector::default());
    sim.step_generation();
    assert_eq!(sim.population().len(), 4);
}

#[test]
fn empty_population_stays_empty() {
    let population: Population<TestGene> = Population::from(vec![]);
    let mut sim = Simulator::new(population, LenInspector { first_len: 0, checked: false }, one(), one(), CycleSelector::default());
    sim.step_generation();
    assert!(sim.population().is_empty());
}

#[test]
fn inspector_sees_generation_numbers_and_stops_the_run() {
    let population = Population::from(vec![TestGene(1), TestGene(2)]);
    let mut sim = Simulator::new(
        population,
        CountInspector { seen: vec![], stop_after: 3 },
        zero(),
        zero(),
        CycleSelector::default(),
    );
    let mut generation = 0usize;
    while sim.run_generation(generation) {
        generation += 1;
    }
    assert_eq!(generation, 2);
}

#[test]
fn build_reports_first_missing_field() {
    let b: SimulatorBuilder<TestGene, LenInspector, CycleSelector> = SimulatorBuilder::new();
    assert_eq!(b.build().err(), Some(BuildError::MissingPopulation));
    let b: SimulatorBuilder<TestGene, LenInspector, CycleSelector> =
        SimulatorBuilder::default().with_population(Population::from(vec![TestGene(1)]));
    assert_eq!(b.build().err(), Some(BuildError::MissingInspector));
    let b: SimulatorBuilder<TestGene, LenInspector, CycleSelector> = SimulatorBuilder::new()
        .with_population(Population::from(vec![TestGene(1)]))
        .with_inspector(LenInspector { first_len: 0, checked: false });
    assert_eq!(b.build().err(), Some(BuildError::MissingCrossoverRate));
    let b: SimulatorBuilder<TestGene, LenInspector, CycleSelector> = SimulatorBuilder::new()
        .with_population(Population::from(vec![TestGene(1)]))
        .with_inspector(LenInspector { first_len: 0, checked: false })
        .with_crossover_rate(zero());
    assert_eq!(b.build().err(), Some(BuildError::MissingMutationRate));
    let b: SimulatorBuilder<TestGene, LenInspector, CycleSelector> = SimulatorBuilder::new()
        .with_population(Population::from(vec![TestGene(1)]))
        .with_inspector(LenInspector { first_len: 0, checked: false })
        .with_crossover_rate(zero())
        .with_mutation_rate(zero());
    assert_eq!(b.build().err(), Some(BuildError::MissingSelector));
}

#[test]
fn probability_bounds() {
    assert!(Probability::new(0, 0).is_none());
    assert!(Probability::new(3, 2).is_none());
    let p = Probability::new(1, 4).unwrap();
    assert!(p.hits(0));
    assert!(!p.hits(1));
    assert!(!zero().hits(0));
}

#[test]
fn recombine_only_marked_pairs() {
    let parents = vec![(TestGene(1), TestGene(2)), (TestGene(3), TestGene(4))];
    let out = recombine(parents, &vec![false, true]);
    assert_eq!(out, vec![TestGene(1), TestGene(2), TestGene(4), TestGene(3)]);
}

#[test]
fn mutate_only_marked_children() {
    let out = mutate_marked(vec![TestGene(1), TestGene(2), TestGene(3)], &vec![true, false, true]);
    assert_eq!(out, vec![TestGene(2), TestGene(2), TestGene(4)]);
}

#[test]
fn decode_is_stable_and_leaves_fitness() {
    let g = TestGene(6);
    let before = g.fitness();
    let a = g.decode();
    let b = g.decode();
    assert_eq!(a, b);
    assert_eq!(g.fitness(), before);
}

#[test]
fn pair_up_keeps_draw_order() {
    let pairs = pair_up(vec![TestGene(4), TestGene(1), TestGene(3), TestGene(2), TestGene(9)]);
    assert_eq!(
        pairs,
        vec![(TestGene(4), TestGene(1)), (TestGene(3), TestGene(2))]
    );
}
