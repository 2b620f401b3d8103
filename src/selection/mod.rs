//! The three sampling strategies: fitness-proportionate, tournament and rank.
use crate::genotype::{GenoType, Roulette};
use crate::population::fitness_column;
use crate::random::{draw_below, entropy_rng, seeded_rng};
use crate::wheel::{first_best, is_first_best, is_pick, non_decreasing, Wheel};
use rand::rngs::StdRng;
use vstd::prelude::*;

verus! {

/// The weight that fitness-proportionate selection gives to a fitness value;
/// a negative fitness counts as no weight at all.
pub open spec fn weight(f: i64) -> int {
    if f < 0 {
        0
    } else {
        f as int
    }
}

/// The sum of the weights of the first `k` fitness values.
pub open spec fn cumulative(fs: Seq<i64>, k: int) -> int
    decreases k,
{
    if k <= 0 || k > fs.len() {
        0
    } else {
        cumulative(fs, k - 1) + weight(fs[k - 1])
    }
}

/// The target a draw lands on: below `total`, or 0 where everything weighs nothing.
pub open spec fn valid_target(total: int, t: int) -> bool {
    if total == 0 {
        t == 0
    } else {
        0 <= t < total
    }
}

/// Fitness-proportionate (roulette wheel) selection: each genotype is drawn
/// with a chance proportional to its fitness, a negative fitness weighing
/// nothing. Where all weigh nothing the last genotype is drawn.
pub struct FitnessProportionate<G: GenoType> {
    wheel: Wheel<G>,
    rng: StdRng,
}

impl<G: GenoType> FitnessProportionate<G> {
    /// The wheel that the last snapshot laid out.
    pub closed spec fn wheel(&self) -> Wheel<G> {
        self.wheel
    }

    pub fn new() -> (r: Self)
        ensures
            r.wheel().genes().len() == 0,
    {
        FitnessProportionate { wheel: Wheel::empty(), rng: entropy_rng() }
    }

    pub fn with_seed(seed: u64) -> (r: Self)
        ensures
            r.wheel().genes().len() == 0,
    {
        FitnessProportionate { wheel: Wheel::empty(), rng: seeded_rng(seed) }
    }

    /// The wheel holds a copy of each genotype of `population` in its given
    /// order, with the cumulative weights of their fitness.
    pub open spec fn laid_out(&self, population: Seq<(G, i64)>) -> bool {
        &&& self.wheel().genes().len() == population.len()
        &&& forall|k: int|
            0 <= k < population.len() ==> cloned(population[k].0, #[trigger] self.wheel().genes()[k])
        &&& forall|k: int|
            0 <= k < population.len() ==> #[trigger] self.wheel().table()[k] as int == cumulative(
                fitness_column(population),
                k + 1,
            )
    }

    /// `g` is a copy of the genotype that some admissible target lands on.
    pub open spec fn may_draw(&self, g: G) -> bool {
        exists|t: int, k: int|
            valid_target(self.wheel().spec_total(), t) && #[trigger] is_pick(
                self.wheel().table(),
                t,
                k,
            ) && cloned(self.wheel().genes()[k], g)
    }

    /// Lays the snapshot out on the wheel in its given order, each entry
    /// weighted by its fitness.
    pub fn load(&mut self, population: &[(G, i64)])
        ensures
            final(self).laid_out(population@),
    {
        let ghost fs = fitness_column(population@);
        let mut genes: Vec<G> = Vec::new();
        let mut prefix: Vec<u128> = Vec::new();
        let mut acc: u128 = 0;
        let mut i: usize = 0;
        while i < population.len()
            invariant
                i <= population@.len(),
                fs == fitness_column(population@),
                genes@.len() == i,
                prefix@.len() == i,
                acc as int == cumulative(fs, i as int),
                acc <= i * 0x8000_0000_0000_0000,
                non_decreasing(prefix@),
                forall|k: int| 0 <= k < i ==> prefix@[k] <= acc,
                forall|k: int| 0 <= k < i ==> cloned(population@[k].0, #[trigger] genes@[k]),
                forall|k: int|
                    0 <= k < i ==> #[trigger] prefix@[k] as int == cumulative(fs, k + 1),
            decreases population@.len() - i,
        {
            let f = population[i].1;
            let w: u128 = if f < 0 {
                0
            } else {
                f as u128
            };
            acc = acc + w;
            genes.push(population[i].0.clone());
            prefix.push(acc);
            i = i + 1;
        }
        self.wheel = Wheel::new(genes, prefix);
    }

    /// A copy of the genotype that a draw of `target` lands on.
    pub fn draw_at(&self, target: u128) -> (r: Option<G>)
        ensures
            r.is_none() == (self.wheel().genes().len() == 0),
            r.is_some() ==> exists|k: int|
                #[trigger] is_pick(self.wheel().table(), target as int, k) && cloned(
                    self.wheel().genes()[k],
                    r.unwrap(),
                ),
    {
        let r = self.wheel.pick(target);
        proof {
            if r.is_some() {
                let k = choose|k: int|
                    #[trigger] is_pick(self.wheel.table(), target as int, k) && cloned(
                        self.wheel.genes()[k],
                        r.unwrap(),
                    );
                assert(is_pick(self.wheel().table(), target as int, k));
            }
        }
        r
    }

    /// One weighted draw from a wheel that holds something.
    pub fn spin(&mut self) -> (r: G)
        requires
            old(self).wheel().genes().len() > 0,
        ensures
            final(self).wheel() == old(self).wheel(),
            old(self).may_draw(r),
    {
        let total = self.wheel.total();
        let target: u128 = if total == 0 {
            0
        } else {
            draw_below(&mut self.rng, total)
        };
        let r = self.draw_at(target);
        let g = r.unwrap();
        assert(self.may_draw(g));
        g
    }
}

impl<G: GenoType> Roulette<G> for FitnessProportionate<G> {
    open spec fn ready(&self) -> bool {
        self.wheel().genes().len() > 0
    }

    fn reset(&mut self, population: &[(G, i64)])
        ensures
            final(self).laid_out(population@),
    {
        self.load(population);
    }

    fn draw(&mut self) -> (r: G)
        ensures
            final(self).wheel() == old(self).wheel(),
            old(self).may_draw(r),
    {
        self.spin()
    }
}


/// The fitness of each candidate of a tournament, in draw order.
pub open spec fn candidate_scores<G: GenoType>(pool: Seq<G>, picks: Seq<usize>) -> Seq<i64> {
    picks.map_values(|p: usize| pool[p as int].score())
}

/// `g` is a copy of the winner of a tournament among the candidates at
/// positions `picks` of `pool`: the first of them with the greatest fitness.
pub open spec fn wins<G: GenoType>(pool: Seq<G>, picks: Seq<usize>, g: G) -> bool {
    exists|w: int|
        #[trigger] is_first_best(candidate_scores(pool, picks), w) && cloned(
            pool[picks[w] as int],
            g,
        )
}

/// The number of candidates of a tournament: at least one.
struct TournamentSize {
    value: usize,
}

impl TournamentSize {
    #[verifier::type_invariant]
    spec fn well_formed(&self) -> bool {
        self.value > 0
    }

    spec fn view(&self) -> usize {
        self.value
    }

    fn new(value: usize) -> (r: TournamentSize)
        requires
            value > 0,
        ensures
            r.view() == value,
    {
        TournamentSize { value }
    }

    fn get(&self) -> (r: usize)
        ensures
            r == self.view(),
            r > 0,
    {
        proof {
            use_type_invariant(self);
        }
        self.value
    }
}

/// Tournament selection: the best of `size` uniform draws with replacement.
pub struct TournamentSelector<G: GenoType> {
    size: TournamentSize,
    population: Vec<G>,
    rng: StdRng,
}

impl<G: GenoType> TournamentSelector<G> {
    /// How many candidates each tournament draws.
    pub closed spec fn size(&self) -> usize {
        self.size.view()
    }

    /// The genotypes of the last snapshot.
    pub closed spec fn pool(&self) -> Seq<G> {
        self.population@
    }

    /// Tournaments of `size` candidates, with a random source seeded from the
    /// operating system.
    pub fn new(size: usize) -> (r: Self)
        requires
            size > 0,
        ensures
            r.size() == size,
            r.pool().len() == 0,
    {
        TournamentSelector { size: TournamentSize::new(size), population: Vec::new(), rng: entropy_rng() }
    }

    /// Tournaments of `size` candidates, with a random source seeded by `seed`.
    pub fn with_seed(size: usize, seed: u64) -> (r: Self)
        requires
            size > 0,
        ensures
            r.size() == size,
            r.pool().len() == 0,
    {
        TournamentSelector {
            size: TournamentSize::new(size),
            population: Vec::new(),
            rng: seeded_rng(seed),
        }
    }

    /// The pool holds a copy of each genotype of `population`, in order.
    pub open spec fn pooled(&self, population: Seq<(G, i64)>) -> bool {
        &&& self.pool().len() == population.len()
        &&& forall|k: int|
            0 <= k < population.len() ==> cloned(population[k].0, #[trigger] self.pool()[k])
    }

    /// `g` is a copy of the winner of a tournament among `size` candidates of
    /// the pool.
    pub open spec fn may_draw(&self, g: G) -> bool {
        exists|picks: Seq<usize>|
            #[trigger] wins(self.pool(), picks, g) && picks.len() == self.size() && forall|k: int|
                0 <= k < picks.len() ==> #[trigger] picks[k] < self.pool().len()
    }

    /// Keeps a copy of each genotype of the snapshot, in order; fitness is
    /// scored again at every tournament.
    pub fn load(&mut self, population: &[(G, i64)])
        ensures
            final(self).size() == old(self).size(),
            final(self).pooled(population@),
    {
        let mut pool: Vec<G> = Vec::new();
        let mut i: usize = 0;
        while i < population.len()
            invariant
                i <= population@.len(),
                pool@.len() == i,
                forall|k: int| 0 <= k < i ==> cloned(population@[k].0, #[trigger] pool@[k]),
            decreases population@.len() - i,
        {
            pool.push(population[i].0.clone());
            i = i + 1;
        }
        self.population = pool;
    }

    /// Runs a tournament among the candidates at positions `picks` of the
    /// pool: the first of those with the greatest fitness wins.
    pub fn contest(&self, picks: &Vec<usize>) -> (r: G)
        requires
            picks@.len() > 0,
            forall|k: int| 0 <= k < picks@.len() ==> #[trigger] picks@[k] < self.pool().len(),
        ensures
            wins(self.pool(), picks@, r),
    {
        let mut scores: Vec<i64> = Vec::new();
        let mut i: usize = 0;
        while i < picks.len()
            invariant
                i <= picks@.len(),
                scores@.len() == i,
                forall|k: int| 0 <= k < picks@.len() ==> #[trigger] picks@[k] < self.pool().len(),
                forall|k: int|
                    0 <= k < i ==> #[trigger] scores@[k] == self.pool()[picks@[k] as int].score(),
            decreases picks@.len() - i,
        {
            scores.push(self.population[picks[i]].fitness());
            i = i + 1;
        }
        let w = first_best(&scores);
        let g = self.population[picks[w]].clone();
        assert(scores@ =~= candidate_scores(self.pool(), picks@));
        assert(is_first_best(candidate_scores(self.pool(), picks@), w as int));
        g
    }

    /// Draws `size` candidates from a non-empty pool and runs a tournament
    /// among them.
    pub fn spin(&mut self) -> (r: G)
        requires
            old(self).pool().len() > 0,
        ensures
            final(self).size() == old(self).size(),
            final(self).pool() == old(self).pool(),
            old(self).may_draw(r),
    {
        let n = self.population.len();
        let size = self.size.get();
        let mut picks: Vec<usize> = Vec::new();
        let mut i: usize = 0;
        while i < size
            invariant
                n == self.population@.len(),
                n > 0,
                size == self.size(),
                self.size == old(self).size,
                self.population@ == old(self).population@,
                i <= size,
                picks@.len() == i,
                forall|k: int| 0 <= k < i ==> #[trigger] picks@[k] < n,
            decreases size - i,
        {
            let p = draw_below(&mut self.rng, n as u128);
            picks.push(p as usize);
            i = i + 1;
        }
        let r = self.contest(&picks);
        assert(wins(old(self).pool(), picks@, r));
        r
    }
}

impl<G: GenoType> Roulette<G> for TournamentSelector<G> {
    open spec fn ready(&self) -> bool {
        self.pool().len() > 0
    }

    fn reset(&mut self, population: &[(G, i64)])
        ensures
            final(self).size() == old(self).size(),
            final(self).pooled(population@),
    {
        self.load(population);
    }

    fn draw(&mut self) -> (r: G)
        ensures
            final(self).size() == old(self).size(),
            final(self).pool() == old(self).pool(),
            old(self).may_draw(r),
    {
        self.spin()
    }
}


/// Position `a` ranks below position `b`: a lower fitness, or the same fitness
/// and an earlier position.
pub open spec fn ranks_below(fs: Seq<i64>, a: int, b: int) -> bool {
    fs[a] < fs[b] || (fs[a] == fs[b] && a < b)
}

/// `order` lists the positions of `fs` from the lowest rank to the highest: a
/// stable ascending sort by fitness.
pub open spec fn is_rank_order(fs: Seq<i64>, order: Seq<usize>) -> bool {
    &&& order.len() == fs.len()
    &&& forall|k: int| 0 <= k < order.len() ==> #[trigger] order[k] < fs.len()
    &&& forall|p: int| 0 <= p < fs.len() ==> #[trigger] order.contains(p as usize)
    &&& forall|k: int, l: int|
        0 <= k < l < order.len() ==> ranks_below(fs, #[trigger] order[k] as int, #[trigger] order[l] as int)
}

/// Two rank orders of one fitness list agree on their first `k` entries.
proof fn rank_orders_agree_up_to(fs: Seq<i64>, o1: Seq<usize>, o2: Seq<usize>, k: int)
    requires
        is_rank_order(fs, o1),
        is_rank_order(fs, o2),
        0 <= k <= o1.len(),
    ensures
        forall|m: int| 0 <= m < k ==> #[trigger] o1[m] == o2[m],
    decreases k,
{
    if k > 0 {
        rank_orders_agree_up_to(fs, o1, o2, k - 1);
        let n = o1.len() as int;
        let c = k - 1;
        let a = o1[c];
        let b = o2[c];
        assert(o2.contains(a as int as usize));
        assert(o1.contains(b as int as usize));
        let j = choose|j: int| 0 <= j < n && o2[j] == a;
        let i = choose|i: int| 0 <= i < n && o1[i] == b;
        if j < c {
            assert(o1[j] == a);
            assert(ranks_below(fs, o1[j] as int, o1[c] as int));
        }
        if i < c {
            assert(o2[i] == b);
            assert(ranks_below(fs, o2[i] as int, o2[c] as int));
        }
        if j > c && i > c {
            assert(ranks_below(fs, o2[c] as int, o2[j] as int));
            assert(ranks_below(fs, o1[c] as int, o1[i] as int));
        }
    }
}

/// A fitness list has one rank order only.
pub proof fn rank_order_unique(fs: Seq<i64>, o1: Seq<usize>, o2: Seq<usize>)
    requires
        is_rank_order(fs, o1),
        is_rank_order(fs, o2),
    ensures
        o1 == o2,
{
    rank_orders_agree_up_to(fs, o1, o2, o1.len() as int);
    assert(o1 =~= o2);
}

/// Two fitness lists of one length that compare alike position by position,
/// as a list and its image under a strictly increasing map do.
pub open spec fn compare_alike(fs: Seq<i64>, gs: Seq<i64>) -> bool {
    &&& fs.len() == gs.len()
    &&& forall|a: int, b: int|
        0 <= a < fs.len() && 0 <= b < fs.len() ==> (#[trigger] fs[a] < #[trigger] fs[b] <==> gs[a]
            < gs[b]) && (fs[a] == fs[b] <==> gs[a] == gs[b])
}

/// Rank order reads only the relative order of fitness: two fitness lists that
/// compare alike have the same rank orders.
pub proof fn rank_order_ignores_scale(fs: Seq<i64>, gs: Seq<i64>, order: Seq<usize>)
    requires
        compare_alike(fs, gs),
    ensures
        is_rank_order(fs, order) == is_rank_order(gs, order),
{
    if is_rank_order(fs, order) {
        assert forall|k: int, l: int| 0 <= k < l < order.len() implies ranks_below(
            gs,
            #[trigger] order[k] as int,
            #[trigger] order[l] as int,
        ) by {
            assert(ranks_below(fs, order[k] as int, order[l] as int));
        }
    }
    if is_rank_order(gs, order) {
        assert forall|k: int, l: int| 0 <= k < l < order.len() implies ranks_below(
            fs,
            #[trigger] order[k] as int,
            #[trigger] order[l] as int,
        ) by {
            assert(ranks_below(gs, order[k] as int, order[l] as int));
        }
    }
}

/// The sum of the ranks 1 to `k`.
pub open spec fn rank_cumulative(k: int) -> int
    decreases k,
{
    if k <= 0 {
        0
    } else {
        rank_cumulative(k - 1) + k
    }
}

/// The positions of the snapshot in stable ascending order of fitness, by
/// insertion.
pub fn rank_order<G: GenoType>(population: &[(G, i64)]) -> (r: Vec<usize>)
    ensures
        is_rank_order(fitness_column(population@), r@),
{
    let ghost fs = fitness_column(population@);
    let mut order: Vec<usize> = Vec::new();
    let mut i: usize = 0;
    while i < population.len()
        invariant
            i <= population@.len(),
            fs == fitness_column(population@),
            order@.len() == i,
            forall|k: int| 0 <= k < i ==> #[trigger] order@[k] < i,
            forall|p: int| 0 <= p < i ==> #[trigger] order@.contains(p as usize),
            forall|k: int, l: int|
                0 <= k < l < i ==> ranks_below(fs, #[trigger] order@[k] as int, #[trigger] order@[l] as int),
        decreases population@.len() - i,
    {
        let f = population[i].1;
        let mut p: usize = 0;
        while p < order.len() && population[order[p]].1 <= f
            invariant
                i < population@.len(),
                f == fs[i as int],
                fs == fitness_column(population@),
                order@.len() == i,
                p <= i,
                forall|k: int| 0 <= k < i ==> #[trigger] order@[k] < i,
                forall|m: int| 0 <= m < p ==> fs[#[trigger] order@[m] as int] <= f,
            decreases i - p,
        {
            p = p + 1;
        }
        let ghost before = order@;
        order.insert(p, i);
        proof {
            assert forall|k: int, l: int| 0 <= k < l < i + 1 implies ranks_below(
                fs,
                #[trigger] order@[k] as int,
                #[trigger] order@[l] as int,
            ) by {
                if l < p {
                    assert(order@[k] == before[k] && order@[l] == before[l]);
                } else if l == p {
                    assert(order@[k] == before[k]);
                    assert(fs[before[k] as int] <= f);
                } else if k < p {
                    assert(order@[k] == before[k] && order@[l] == before[l - 1]);
                } else if k == p {
                    assert(order@[l] == before[l - 1]);
                    assert(fs[before[p as int] as int] > f);
                    if l - 1 > p {
                        assert(ranks_below(fs, before[p as int] as int, before[l - 1] as int));
                    }
                } else {
                    assert(order@[k] == before[k - 1] && order@[l] == before[l - 1]);
                }
            }
            assert forall|q: int| 0 <= q < i + 1 implies #[trigger] order@.contains(q as usize) by {
                if q == i {
                    assert(order@[p as int] == i);
                } else {
                    assert(before.contains(q as usize));
                    let m = choose|m: int| 0 <= m < before.len() && before[m] == q as usize;
                    if m < p {
                        assert(order@[m] == before[m]);
                    } else {
                        assert(order@[m + 1] == before[m]);
                    }
                }
            }
            assert forall|k: int| 0 <= k < i + 1 implies #[trigger] order@[k] < i + 1 by {
                if k < p {
                    assert(order@[k] == before[k]);
                } else if k > p {
                    assert(order@[k] == before[k - 1]);
                }
            }
        }
        i = i + 1;
    }
    order
}

/// Rank-based selection: the snapshot is sorted by fitness and the genotype of
/// rank `k` (1 for the worst) weighs `k`.
pub struct RankSelector<G: GenoType> {
    order: Vec<usize>,
    wheel: Wheel<G>,
    rng: StdRng,
}

impl<G: GenoType> RankSelector<G> {
    /// The positions of the last snapshot from the lowest rank to the highest.
    pub closed spec fn ranking(&self) -> Seq<usize> {
        self.order@
    }

    /// The wheel laid out in rank order.
    pub closed spec fn wheel(&self) -> Wheel<G> {
        self.wheel
    }

    pub fn new() -> (r: Self)
        ensures
            r.wheel().genes().len() == 0,
    {
        RankSelector { order: Vec::new(), wheel: Wheel::empty(), rng: entropy_rng() }
    }

    pub fn with_seed(seed: u64) -> (r: Self)
        ensures
            r.wheel().genes().len() == 0,
    {
        RankSelector { order: Vec::new(), wheel: Wheel::empty(), rng: seeded_rng(seed) }
    }

    /// The ranking is the stable ascending order of `population` by fitness,
    /// and the wheel holds a copy of each genotype in that order, with the
    /// cumulative rank weights 1 to N.
    pub open spec fn ranked(&self, population: Seq<(G, i64)>) -> bool {
        &&& is_rank_order(fitness_column(population), self.ranking())
        &&& self.wheel().genes().len() == population.len()
        &&& self.wheel().table().len() == population.len()
        &&& forall|k: int|
            0 <= k < population.len() ==> cloned(
                population[self.ranking()[k] as int].0,
                #[trigger] self.wheel().genes()[k],
            )
        &&& forall|k: int|
            0 <= k < population.len() ==> #[trigger] self.wheel().table()[k] as int
                == rank_cumulative(k + 1)
    }

    /// `g` is a copy of the genotype that some admissible target lands on.
    pub open spec fn may_draw(&self, g: G) -> bool {
        exists|t: int, k: int|
            valid_target(self.wheel().spec_total(), t) && #[trigger] is_pick(
                self.wheel().table(),
                t,
                k,
            ) && cloned(self.wheel().genes()[k], g)
    }

    /// Sorts the snapshot by fitness, ties kept in their given order, and lays
    /// it out on the wheel with rank weights 1 to N.
    pub fn load(&mut self, population: &[(G, i64)])
        ensures
            final(self).ranked(population@),
    {
        let ghost fs = fitness_column(population@);
        let order = rank_order(population);
        let mut genes: Vec<G> = Vec::new();
        let mut prefix: Vec<u128> = Vec::new();
        let mut acc: u128 = 0;
        let mut i: usize = 0;
        while i < order.len()
            invariant
                i <= order@.len(),
                is_rank_order(fs, order@),
                fs == fitness_column(population@),
                genes@.len() == i,
                prefix@.len() == i,
                acc as int == rank_cumulative(i as int),
                acc <= i * 0x1_0000_0000_0000_0000,
                non_decreasing(prefix@),
                forall|k: int| 0 <= k < i ==> prefix@[k] <= acc,
                forall|k: int|
                    0 <= k < i ==> cloned(population@[order@[k] as int].0, #[trigger] genes@[k]),
                forall|k: int| 0 <= k < i ==> #[trigger] prefix@[k] as int == rank_cumulative(k + 1),
            decreases order@.len() - i,
        {
            let idx = order[i];
            assert(idx < population@.len());
            acc = acc + (i as u128 + 1);
            genes.push(population[idx].0.clone());
            prefix.push(acc);
            i = i + 1;
        }
        self.order = order;
        self.wheel = Wheel::new(genes, prefix);
    }

    /// A copy of the genotype that a draw of `target` lands on.
    pub fn draw_at(&self, target: u128) -> (r: Option<G>)
        ensures
            r.is_none() == (self.wheel().genes().len() == 0),
            r.is_some() ==> exists|k: int|
                #[trigger] is_pick(self.wheel().table(), target as int, k) && cloned(
                    self.wheel().genes()[k],
                    r.unwrap(),
                ),
    {
        let r = self.wheel.pick(target);
        proof {
            if r.is_some() {
                let k = choose|k: int|
                    #[trigger] is_pick(self.wheel.table(), target as int, k) && cloned(
                        self.wheel.genes()[k],
                        r.unwrap(),
                    );
                assert(is_pick(self.wheel().table(), target as int, k));
            }
        }
        r
    }

    /// One draw weighted by rank from a wheel that holds something.
    pub fn spin(&mut self) -> (r: G)
        requires
            old(self).wheel().genes().len() > 0,
        ensures
            final(self).wheel() == old(self).wheel(),
            final(self).ranking() == old(self).ranking(),
            old(self).may_draw(r),
    {
        let total = self.wheel.total();
        let target: u128 = if total == 0 {
            0
        } else {
            draw_below(&mut self.rng, total)
        };
        let r = self.draw_at(target);
        let g = r.unwrap();
        assert(self.may_draw(g));
        g
    }
}

/// Rank selection reads only the relative order of fitness: loading two
/// snapshots whose fitness lists compare alike gives the same ranking and the
/// same cumulative rank weights.
pub proof fn rank_selection_ignores_scale<G: GenoType>(
    s1: RankSelector<G>,
    s2: RankSelector<G>,
    p1: Seq<(G, i64)>,
    p2: Seq<(G, i64)>,
)
    requires
        compare_alike(fitness_column(p1), fitness_column(p2)),
        s1.ranked(p1),
        s2.ranked(p2),
    ensures
        s1.ranking() == s2.ranking(),
        s1.wheel().table() == s2.wheel().table(),
{
    rank_order_ignores_scale(fitness_column(p1), fitness_column(p2), s1.ranking());
    rank_order_unique(fitness_column(p2), s1.ranking(), s2.ranking());
    assert(s1.wheel().table() =~= s2.wheel().table());
}

impl<G: GenoType> Roulette<G> for RankSelector<G> {
    open spec fn ready(&self) -> bool {
        self.wheel().genes().len() > 0
    }

    fn reset(&mut self, population: &[(G, i64)])
        ensures
            final(self).ranked(population@),
    {
        self.load(population);
    }

    fn draw(&mut self) -> (r: G)
        ensures
            final(self).wheel() == old(self).wheel(),
            final(self).ranking() == old(self).ranking(),
            old(self).may_draw(r),
    {
        self.spin()
    }
}

impl<G: GenoType> Default for FitnessProportionate<G> {
    fn default() -> (r: Self)
        ensures
            r.wheel().genes().len() == 0,
    {
        Self::new()
    }
}

impl<G: GenoType> Default for TournamentSelector<G> {
    /// Tournaments of two.
    fn default() -> (r: Self)
        ensures
            r.size() == 2,
            r.pool().len() == 0,
    {
        Self::new(2)
    }
}

impl<G: GenoType> Default for RankSelector<G> {
    fn default() -> (r: Self)
        ensures
            r.wheel().genes().len() == 0,
    {
        Self::new()
    }
}

} // verus!
