//! The training population: synchronized per-tick simulation, fitness
//! aggregation, ranking, and the genetic algorithm that breeds the next
//! generation.

use vstd::prelude::*;
use vstd::multiset::Multiset;
use crate::brain::{beq, blockwise_of, Brain, BrainOutput, SCALAR_COUNT};
use crate::direction::Direction;
use crate::error::SimError;
use rand::rngs::StdRng;
use crate::rng::rng_below;
use crate::snake::{is_fresh, needs_placement, spec_fitness, tick_rel, Snake, Tail};

verus! {

broadcast use vstd::seq_lib::group_to_multiset_ensures;

/// The tunable genetic parameters handed to `Population::new`.
#[derive(Debug, Clone, Copy, PartialEq, Eq, Structural)]
pub struct PopulationConfig {
    /// Agents carried to the next generation with their brain unchanged.
    pub transfer_count: usize,
    /// Per-scalar mutation probability, in thousandths.
    pub mutation_permille: u32,
    /// Top-ranked agents eligible as crossover parents.
    pub crossover: usize,
}

/// Whether the parameters fit a population of the given size: elites within
/// the selection pool, the pool non-empty, within the population and small
/// enough to index with a 32-bit draw, and a probability of at most 1.
pub open spec fn config_ok(config: PopulationConfig, size: int) -> bool {
    &&& config.transfer_count as int <= config.crossover as int
    &&& 1 <= config.crossover as int
    &&& config.crossover as int <= size
    &&& config.crossover as int <= u32::MAX as int
    &&& config.mutation_permille <= 1000
}

/// How one training tick relates an agent's pre- and post-states: a dead
/// agent is left untouched, an alive one advances by one tick.
pub open spec fn ticked(pre: Snake, post: Snake, out: BrainOutput) -> bool {
    if pre.is_dead {
        post == pre
    } else {
        tick_rel(pre, post, out)
    }
}

/// The first `k` agents have completed their tick and the rest are
/// untouched: the state a training pass leaves behind when food placement
/// fails at agent `k`.
pub open spec fn ticked_prefix(
    pre: Seq<Snake>,
    post: Seq<Snake>,
    outs: Seq<BrainOutput>,
    k: int,
) -> bool {
    &&& 0 <= k <= pre.len()
    &&& forall|i: int| 0 <= i < k ==> ticked(pre[i], #[trigger] post[i], outs[i])
    &&& forall|i: int| k <= i < pre.len() ==> #[trigger] post[i] == pre[i]
}

/// The number of agents in the sequence that are not dead.
pub open spec fn alive_count(s: Seq<Snake>) -> int
    decreases s.len(),
{
    if s.len() == 0 {
        0
    } else {
        (if s[0].is_dead { 0int } else { 1int }) + alive_count(s.drop_first())
    }
}

/// Appending an agent raises the alive count by one exactly when that agent
/// is alive.
pub proof fn lemma_alive_count_push(s: Seq<Snake>, x: Snake)
    ensures
        alive_count(s.push(x)) == alive_count(s) + (if x.is_dead { 0int } else { 1int }),
    decreases s.len(),
{
    if s.len() == 0 {
        assert(s.push(x).len() == 1);
        assert(s.push(x)[0] == x);
        assert(s.push(x).drop_first() =~= Seq::<Snake>::empty());
        assert(alive_count(Seq::<Snake>::empty()) == 0);
    } else {
        assert(s.push(x)[0] == s[0]);
        assert(s.push(x).drop_first() =~= s.drop_first().push(x));
        lemma_alive_count_push(s.drop_first(), x);
    }
}

/// The fixed-size collection of agents under training.
#[derive(Debug)]
pub struct Population {
    pub snakes: Vec<Snake>,
    pub size: usize,
    pub generation: usize,
    /// Agents carried to the next generation with their brain unchanged.
    pub transfer_count: usize,
    /// Per-scalar mutation probability, in thousandths.
    pub mutation_permille: u32,
    /// Top-ranked agents eligible as crossover parents.
    pub crossover: usize,
}

impl Population {
    /// The structural invariant: a non-empty agent collection of the stated
    /// size, parameters that fit it, and every agent well-formed.
    pub open spec fn wf(self) -> bool {
        &&& self.size == self.snakes@.len()
        &&& 1 <= self.size
        &&& config_ok(
            PopulationConfig {
                transfer_count: self.transfer_count,
                mutation_permille: self.mutation_permille,
                crossover: self.crossover,
            },
            self.size as int,
        )
        &&& forall|i: int| 0 <= i < self.snakes@.len() ==> (#[trigger] self.snakes@[i]).wf()
    }

    /// Whether the parameter fields equal those of `other`; the per-tick and
    /// generation operations never change them.
    pub open spec fn same_params(self, other: Population) -> bool {
        &&& self.size == other.size
        &&& self.transfer_count == other.transfer_count
        &&& self.mutation_permille == other.mutation_permille
        &&& self.crossover == other.crossover
    }

    /// Builds a population of fresh agents around the given brains. An empty
    /// brain list or parameters that do not fit its size are rejected.
    pub fn new(brains: &Vec<Brain>, config: PopulationConfig, rng: &mut StdRng) -> (r: Result<
        Population,
        SimError,
    >)
        requires
            forall|i: int| 0 <= i < brains@.len() ==> (#[trigger] brains@[i]).wf(),
        ensures
            r is Ok <==> (brains@.len() > 0 && config_ok(config, brains@.len() as int)),
            (r matches Err(e) ==> if brains@.len() == 0 {
                e == SimError::EmptyPopulation
            } else {
                e == SimError::InvalidConfig
            }),
            (r matches Ok(p) ==> {
                &&& p.wf()
                &&& p.size == brains@.len()
                &&& p.generation == 1
                &&& p.transfer_count == config.transfer_count
                &&& p.mutation_permille == config.mutation_permille
                &&& p.crossover == config.crossover
                &&& forall|i: int|
                    0 <= i < brains@.len() ==> is_fresh(#[trigger] p.snakes@[i]) && beq(
                        p.snakes@[i].brain,
                        brains@[i],
                    )
            }),
    {
        if brains.len() == 0 {
            return Err(SimError::EmptyPopulation);
        }
        if !(config.transfer_count <= config.crossover && 1 <= config.crossover
            && config.crossover <= brains.len() && config.crossover <= u32::MAX as usize
            && config.mutation_permille <= 1000) {
            return Err(SimError::InvalidConfig);
        }
        let mut snakes: Vec<Snake> = Vec::new();
        let mut i: usize = 0;
        while i < brains.len()
            invariant
                i <= brains@.len(),
                snakes@.len() == i,
                forall|k: int| 0 <= k < brains@.len() ==> (#[trigger] brains@[k]).wf(),
                forall|k: int|
                    0 <= k < i ==> is_fresh(#[trigger] snakes@[k]) && beq(
                        snakes@[k].brain,
                        brains@[k],
                    ) && snakes@[k].wf(),
            decreases brains@.len() - i,
        {
            let b = brains[i].clone();
            snakes.push(Snake::new(b, rng));
            i += 1;
        }
        Ok(
            Population {
                snakes,
                size: brains.len(),
                generation: 1,
                transfer_count: config.transfer_count,
                mutation_permille: config.mutation_permille,
                crossover: config.crossover,
            },
        )
    }

    /// Advances every agent that is still alive by one tick, consuming one
    /// network output per agent, and reports how many agents remain alive.
    /// The pass can fail only when some living agent's tick needs a freshly
    /// placed food item; the error is surfaced, some prefix of the agents has
    /// completed its tick and the rest are untouched.
    pub fn train(&mut self, outputs: &Vec<BrainOutput>, rng: &mut StdRng) -> (r: Result<
        usize,
        SimError,
    >)
        requires
            old(self).wf(),
            outputs@.len() == old(self).snakes@.len(),
            forall|i: int|
                0 <= i < old(self).snakes@.len() && !(#[trigger] old(self).snakes@[i]).is_dead ==> {
                    &&& old(self).snakes@[i].lifetime < u32::MAX
                    &&& old(self).snakes@[i].score < u32::MAX
                    &&& old(self).snakes@[i].steps_left <= u32::MAX - 100
                },
        ensures
            final(self).wf(),
            final(self).snakes@.len() == old(self).snakes@.len(),
            final(self).same_params(*old(self)),
            final(self).generation == old(self).generation,
            (r matches Ok(n) ==> (forall|i: int|
                0 <= i < old(self).snakes@.len() ==> ticked(
                    old(self).snakes@[i],
                    #[trigger] final(self).snakes@[i],
                    outputs@[i],
                )) && n as int == alive_count(final(self).snakes@)),
            (r matches Err(e) ==> e == SimError::FoodPlacementExhausted && (exists|i: int|
                0 <= i < old(self).snakes@.len() && !old(self).snakes@[i].is_dead
                    && #[trigger] needs_placement(old(self).snakes@[i], outputs@[i]))
                && exists|k: int|
                #[trigger] ticked_prefix(old(self).snakes@, final(self).snakes@, outputs@, k)),
    {
        let ghost orig = self.snakes@;
        let total = self.snakes.len();
        let mut done: Vec<Snake> = Vec::new();
        let mut alive: usize = 0;
        let mut failed: Option<SimError> = None;
        let ghost mut fail_k: int = 0;
        while self.snakes.len() > 0
            invariant
                done@.len() + self.snakes@.len() == orig.len(),
                orig.len() == total as int,
                orig.len() == outputs@.len(),
                self.snakes@ == orig.subrange(done@.len() as int, orig.len() as int),
                forall|i: int| 0 <= i < orig.len() ==> (#[trigger] orig[i]).wf(),
                forall|i: int|
                    0 <= i < orig.len() && !(#[trigger] orig[i]).is_dead ==> {
                        &&& orig[i].lifetime < u32::MAX
                        &&& orig[i].score < u32::MAX
                        &&& orig[i].steps_left <= u32::MAX - 100
                    },
                forall|i: int| 0 <= i < done@.len() ==> (#[trigger] done@[i]).wf(),
                failed is None ==> forall|i: int|
                    0 <= i < done@.len() ==> ticked(orig[i], #[trigger] done@[i], outputs@[i]),
                (failed matches Some(e) ==> e == SimError::FoodPlacementExhausted && 0 <= fail_k
                    <= done@.len() && fail_k < orig.len() && !orig[fail_k].is_dead
                    && needs_placement(orig[fail_k], outputs@[fail_k]) && (forall|i: int|
                    0 <= i < fail_k ==> ticked(orig[i], #[trigger] done@[i], outputs@[i])) && (
                forall|i: int| fail_k <= i < done@.len() ==> #[trigger] done@[i] == orig[i])),
                alive as int == alive_count(done@),
                alive <= done@.len(),
                self.same_params(*old(self)),
                self.generation == old(self).generation,
            decreases self.snakes@.len(),
        {
            let ghost idx = done@.len() as int;
            let mut s = self.snakes.remove(0);
            proof {
                assert(s == orig[idx]);
                assert(self.snakes@ =~= orig.subrange(idx + 1, orig.len() as int));
            }
            if failed.is_none() && !s.is_dead {
                let o = outputs[done.len()];
                match s.update(&o, rng) {
                    Ok(_) => {},
                    Err(e) => {
                        failed = Some(e);
                        proof {
                            fail_k = idx;
                        }
                    },
                }
            }
            if !s.is_dead {
                alive = alive + 1;
            }
            proof {
                lemma_alive_count_push(done@, s);
            }
            done.push(s);
        }
        proof {
            assert(done@.len() == orig.len());
        }
        self.snakes = done;
        match failed {
            Some(e) => {
                proof {
                    assert(ticked_prefix(orig, final(self).snakes@, outputs@, fail_k));
                    assert(needs_placement(old(self).snakes@[fail_k], outputs@[fail_k]));
                }
                Err(e)
            },
            None => Ok(alive),
        }
    }

    /// Computes the post-mortem fitness of every agent from its recorded
    /// score and lifetime.
    pub fn evaluate(&mut self)
        requires
            old(self).wf(),
        ensures
            final(self).wf(),
            final(self).snakes@.len() == old(self).snakes@.len(),
            final(self).same_params(*old(self)),
            final(self).generation == old(self).generation,
            forall|i: int|
                0 <= i < old(self).snakes@.len() ==> {
                    &&& (#[trigger] final(self).snakes@[i]).fitness as int == spec_fitness(
                        old(self).snakes@[i].score as int,
                        old(self).snakes@[i].lifetime as int,
                    )
                    &&& (final(self).snakes@[i] == Snake {
                        fitness: final(self).snakes@[i].fitness,
                        ..old(self).snakes@[i]
                    })
                },
    {
        let ghost orig = self.snakes@;
        let mut done: Vec<Snake> = Vec::new();
        while self.snakes.len() > 0
            invariant
                done@.len() + self.snakes@.len() == orig.len(),
                self.snakes@ == orig.subrange(done@.len() as int, orig.len() as int),
                forall|i: int| 0 <= i < orig.len() ==> (#[trigger] orig[i]).wf(),
                forall|i: int| 0 <= i < done@.len() ==> (#[trigger] done@[i]).wf(),
                forall|i: int|
                    0 <= i < done@.len() ==> {
                        &&& (#[trigger] done@[i]).fitness as int == spec_fitness(
                            orig[i].score as int,
                            orig[i].lifetime as int,
                        )
                        &&& (done@[i] == Snake { fitness: done@[i].fitness, ..orig[i] })
                    },
                self.same_params(*old(self)),
                self.generation == old(self).generation,
            decreases self.snakes@.len(),
        {
            let ghost idx = done@.len() as int;
            let mut s = self.snakes.remove(0);
            proof {
                assert(s == orig[idx]);
                assert(self.snakes@ =~= orig.subrange(idx + 1, orig.len() as int));
            }
            s.determine_fitness();
            done.push(s);
        }
        self.snakes = done;
    }

    /// Orders the agents by descending fitness; the result is a permutation
    /// of the agents, and equal fitness keeps no particular order.
    pub fn sort(&mut self)
        requires
            old(self).wf(),
        ensures
            final(self).wf(),
            final(self).snakes@.len() == old(self).snakes@.len(),
            final(self).same_params(*old(self)),
            final(self).generation == old(self).generation,
            forall|i: int, j: int|
                0 <= i <= j < final(self).snakes@.len() ==> (#[trigger] final(self).snakes@[i]).fitness >= (#[trigger] final(self).snakes@[j]).fitness,
            final(self).snakes@.to_multiset() == old(self).snakes@.to_multiset(),
    {
        let ghost orig = self.snakes@;
        let mut out: Vec<Snake> = Vec::new();
        while self.snakes.len() > 0
            invariant
                out@.len() + self.snakes@.len() == orig.len(),
                out@.to_multiset().add(self.snakes@.to_multiset()) == orig.to_multiset(),
                forall|i: int| 0 <= i < out@.len() ==> (#[trigger] out@[i]).wf(),
                forall|i: int| 0 <= i < self.snakes@.len() ==> (#[trigger] self.snakes@[i]).wf(),
                forall|i: int, j: int|
                    0 <= i <= j < out@.len() ==> (#[trigger] out@[i]).fitness >= (#[trigger] out@[j]).fitness,
                forall|i: int, j: int|
                    0 <= i < out@.len() && 0 <= j < self.snakes@.len() ==> (#[trigger] out@[i]).fitness
                        >= (#[trigger] self.snakes@[j]).fitness,
                self.same_params(*old(self)),
                self.generation == old(self).generation,
            decreases self.snakes@.len(),
        {
            let mut m: usize = 0;
            let mut i: usize = 1;
            while i < self.snakes.len()
                invariant
                    m < i <= self.snakes@.len(),
                    i >= 1,
                    forall|j: int|
                        0 <= j < i ==> (#[trigger] self.snakes@[j]).fitness
                            <= self.snakes@[m as int].fitness,
                decreases self.snakes@.len() - i,
            {
                if self.snakes[i].fitness > self.snakes[m].fitness {
                    m = i;
                }
                i += 1;
            }
            let ghost before = self.snakes@;
            let s = self.snakes.remove(m);
            proof {
                assert(before.remove(m as int).to_multiset() =~= before.to_multiset().remove(
                    before[m as int],
                ));
                assert(out@.push(s).to_multiset() =~= out@.to_multiset().insert(s));
                assert(out@.to_multiset().insert(s).add(before.to_multiset().remove(s))
                    =~= out@.to_multiset().add(before.to_multiset()));
            }
            out.push(s);
        }
        proof {
            assert(self.snakes@.to_multiset() =~= Multiset::<Snake>::empty());
            assert(out@.to_multiset().add(Multiset::<Snake>::empty()) =~= out@.to_multiset());
        }
        self.snakes = out;
        proof {
            orig.to_multiset_ensures();
            final(self).snakes@.to_multiset_ensures();
            assert(final(self).snakes@.len() == final(self).snakes@.to_multiset().len());
            assert(orig.len() == orig.to_multiset().len());
        }
    }

    /// A replay-configured copy of the rank-0 agent: a fresh life around the
    /// best brain and fitness, whose food items are fed from the recorded
    /// queue, with the first recorded cell dequeued as the initial food item.
    /// On an empty collection the rank-0 access is answered with an explicit
    /// error instead.
    pub fn best(&self) -> (r: Result<Snake, SimError>)
        requires
            self.snakes@.len() > 0 ==> self.snakes@[0].wf() && self.snakes@[0].apples@.len() > 0,
        ensures
            r is Err <==> self.snakes@.len() == 0,
            (r matches Err(e) ==> e == SimError::EmptyPopulation),
            (r matches Ok(s) ==> {
                let b = self.snakes@[0];
                &&& s.wf()
                &&& beq(s.brain, b.brain)
                &&& s.fitness == b.fitness
                &&& s.replay
                &&& s.apple == b.apples@[0]
                &&& s.apples@ == b.apples@.drop_first()
                &&& s.x == 16 && s.y == 16
                &&& s.direction == Direction::Up
                &&& s.tail@ == seq![Tail { x: 16, y: 17 }, Tail { x: 16, y: 18 }]
                &&& !s.should_grow && s.score == 0 && s.steps_left == 100 && s.lifetime == 0
                    && !s.is_dead
            }),
    {
        if self.snakes.len() == 0 {
            return Err(SimError::EmptyPopulation);
        }
        let best_snake = &self.snakes[0];
        let brain = best_snake.brain.clone();
        let apple = best_snake.apples[0];
        let mut apples: std::collections::VecDeque<crate::apple::Apple> =
            std::collections::VecDeque::new();
        let mut i: usize = 1;
        while i < best_snake.apples.len()
            invariant
                1 <= i <= best_snake.apples@.len(),
                apples@ == best_snake.apples@.subrange(1, i as int),
            decreases best_snake.apples@.len() - i,
        {
            apples.push_back(best_snake.apples[i]);
            i += 1;
        }
        proof {
            assert(apples@ =~= self.snakes@[0].apples@.drop_first());
        }
        let mut tail: std::collections::VecDeque<Tail> = std::collections::VecDeque::new();
        tail.push_back(Tail { x: 16, y: 17 });
        tail.push_back(Tail { x: 16, y: 18 });
        let s = Snake {
            x: 16,
            y: 16,
            direction: Direction::Up,
            tail,
            should_grow: false,
            score: 0,
            steps_left: 100,
            lifetime: 0,
            is_dead: false,
            vision: Vec::new(),
            brain,
            fitness: best_snake.fitness,
            replay: true,
            apple,
            apples,
        };
        proof {
            assert(s.tail@ =~= seq![Tail { x: 16, y: 17 }, Tail { x: 16, y: 18 }]);
        }
        Ok(s)
    }

    /// Breeds one offspring brain: two parents drawn independently and
    /// uniformly from the selection pool, crossed over block-wise, together
    /// with a fresh mutation mask at this population's mutation rate.
    pub fn breed(&self, rng: &mut StdRng) -> (r: (Brain, Vec<bool>))
        requires
            self.wf(),
        ensures
            r.0.wf(),
            exists|i: int, j: int|
                0 <= i < self.crossover as int && 0 <= j < self.crossover as int
                    && #[trigger] blockwise_of(r.0, self.snakes@[i].brain, self.snakes@[j].brain),
            r.1@.len() == SCALAR_COUNT as int,
            self.mutation_permille == 0 ==> forall|i: int| 0 <= i < r.1@.len() ==> !r.1@[i],
            self.mutation_permille >= 1000 ==> forall|i: int| 0 <= i < r.1@.len() ==> r.1@[i],
    {
        proof {
            assert(self.crossover as u32 as int == self.crossover as int);
        }
        let mother = rng_below(rng, self.crossover as u32) as usize;
        let father = rng_below(rng, self.crossover as u32) as usize;
        proof {
            assert(0 <= mother as int && (mother as int) < self.crossover as int);
            assert(0 <= father as int && (father as int) < self.crossover as int);
        }
        let child = self.snakes[mother].brain.crossover(&self.snakes[father].brain, rng);
        let mask = Brain::mutation_mask(rng, self.mutation_permille);
        proof {
            assert(blockwise_of(
                child,
                self.snakes@[mother as int].brain,
                self.snakes@[father as int].brain,
            ));
        }
        (child, mask)
    }

    /// Replaces the agents by the next cohort: the first `transfer_count`
    /// agents are fresh lives around the unchanged brains of the current
    /// top ranks, the rest are fresh lives around the given offspring
    /// brains, and the generation counter advances by one. The population
    /// size never changes.
    pub fn up_generation(&mut self, offspring: &Vec<Brain>, rng: &mut StdRng)
        requires
            old(self).wf(),
            offspring@.len() + old(self).transfer_count as int == old(self).snakes@.len(),
            forall|k: int| 0 <= k < offspring@.len() ==> (#[trigger] offspring@[k]).wf(),
            old(self).generation < usize::MAX,
        ensures
            final(self).wf(),
            final(self).snakes@.len() == old(self).snakes@.len(),
            final(self).same_params(*old(self)),
            final(self).generation == old(self).generation + 1,
            forall|i: int|
                0 <= i < old(self).transfer_count as int ==> is_fresh(
                    #[trigger] final(self).snakes@[i],
                ) && beq(final(self).snakes@[i].brain, old(self).snakes@[i].brain),
            forall|k: int|
                0 <= k < offspring@.len() ==> is_fresh(
                    #[trigger] final(self).snakes@[old(self).transfer_count as int + k],
                ) && beq(
                    final(self).snakes@[old(self).transfer_count as int + k].brain,
                    offspring@[k],
                ),
    {
        let mut next: Vec<Snake> = Vec::new();
        let mut i: usize = 0;
        while i < self.transfer_count
            invariant
                i <= self.transfer_count,
                next@.len() == i,
                self == old(self),
                old(self).wf(),
                forall|j: int|
                    0 <= j < i ==> is_fresh(#[trigger] next@[j]) && beq(
                        next@[j].brain,
                        old(self).snakes@[j].brain,
                    ) && next@[j].wf(),
            decreases self.transfer_count - i,
        {
            let b = self.snakes[i].brain.clone();
            next.push(Snake::new(b, rng));
            i += 1;
        }
        let mut k: usize = 0;
        while k < offspring.len()
            invariant
                k <= offspring@.len(),
                next@.len() == self.transfer_count + k,
                self == old(self),
                old(self).wf(),
                forall|j: int| 0 <= j < offspring@.len() ==> (#[trigger] offspring@[j]).wf(),
                forall|j: int|
                    0 <= j < self.transfer_count as int ==> is_fresh(#[trigger] next@[j]) && beq(
                        next@[j].brain,
                        old(self).snakes@[j].brain,
                    ) && next@[j].wf(),
                forall|j: int|
                    0 <= j < k ==> is_fresh(#[trigger] next@[self.transfer_count as int + j]) && beq(
                        next@[self.transfer_count as int + j].brain,
                        offspring@[j],
                    ) && next@[self.transfer_count as int + j].wf(),
            decreases offspring@.len() - k,
        {
            let b = offspring[k].clone();
            next.push(Snake::new(b, rng));
            k += 1;
        }
        self.snakes = next;
        self.generation = self.generation + 1;
        proof {
            assert forall|i: int| 0 <= i < self.snakes@.len() implies (#[trigger] self.snakes@[i]).wf() by {
                if i >= self.transfer_count as int {
                    let j = i - self.transfer_count as int;
                    assert(self.snakes@[self.transfer_count as int + j].wf());
                }
            }
        }
    }
}

} // verus!
