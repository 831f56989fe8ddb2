use snake_evolution::brain::{Brain, BrainOutput, SCALAR_COUNT};
use snake_evolution::error::SimError;
use snake_evolution::population::{Population, PopulationConfig};
use rand::rngs::StdRng;

fn test_rng(seed: u64) -> StdRng {
    <StdRng as rand::SeedableRng>::seed_from_u64(seed)
}

fn marked_brain(mark: u32) -> Brain {
    Brain::new(
        vec![mark; 384],
        vec![mark; 64],
        vec![mark; 16],
        vec![mark; 4],
    )
    .unwrap()
}

fn brain_scalars(b: &Brain) -> Vec<u32> {
    let mut all = Vec::new();
    all.extend_from_slice(&b.input_weights);
    all.extend_from_slice(&b.hidden_weights);
    all.extend_from_slice(&b.input_biases);
    all.extend_from_slice(&b.hidden_biases);
    all
}

fn default_config() -> PopulationConfig {
    PopulationConfig { transfer_count: 10, mutation_permille: 100, crossover: 100 }
}

#[test]
fn mutation_mask_at_rate_zero_marks_nothing() {
    let mut rng = test_rng(1);
    let mask = Brain::mutation_mask(&mut rng, 0);
    assert_eq!(mask.len(), SCALAR_COUNT);
    assert!(mask.iter().all(|&b| !b));
}

#[test]
fn mutation_mask_at_full_rate_marks_everything() {
    let mut rng = test_rng(2);
    let mask = Brain::mutation_mask(&mut rng, 1000);
    assert_eq!(mask.len(), SCALAR_COUNT);
    assert!(mask.iter().all(|&b| b));
}

#[test]
fn mutate_with_an_empty_mask_changes_no_scalar() {
    let mut b = marked_brain(0xDEAD);
    let mut rng = test_rng(3);
    let mask = Brain::mutation_mask(&mut rng, 0);
    let vals = vec![0x1234u32; SCALAR_COUNT];
    b.mutate(&mask, &vals);
    assert!(brain_scalars(&b).iter().all(|&w| w == 0xDEAD));
}

#[test]
fn mutate_with_a_full_mask_replaces_every_scalar() {
    let mut b = marked_brain(0xDEAD);
    let mut rng = test_rng(4);
    let mask = Brain::mutation_mask(&mut rng, 1000);
    let vals: Vec<u32> = (0..SCALAR_COUNT as u32).collect();
    b.mutate(&mask, &vals);
    assert_eq!(brain_scalars(&b), vals);
}

#[test]
fn mutate_touches_only_the_masked_scalars() {
    let mut b = marked_brain(7);
    let mut mask = vec![false; SCALAR_COUNT];
    mask[0] = true;
    mask[400] = true;
    let vals = vec![99u32; SCALAR_COUNT];
    b.mutate(&mask, &vals);
    let all = brain_scalars(&b);
    for (i, &w) in all.iter().enumerate() {
        if i == 0 || i == 400 {
            assert_eq!(w, 99);
        } else {
            assert_eq!(w, 7);
        }
    }
}

#[test]
fn crossover_takes_each_tensor_wholly_from_one_parent() {
    let a = marked_brain(1);
    let b = marked_brain(2);
    for seed in 0..20u64 {
        let mut rng = test_rng(seed);
        let child = a.crossover(&b, &mut rng);
        for tensor in [
            &child.input_weights,
            &child.hidden_weights,
            &child.input_biases,
            &child.hidden_biases,
        ] {
            let first = tensor[0];
            assert!(first == 1 || first == 2);
            assert!(tensor.iter().all(|&w| w == first));
        }
    }
}

#[test]
fn crossover_mixes_blocks_of_both_parents() {
    // Over many draws, both parents contribute at least one block.
    let a = marked_brain(1);
    let b = marked_brain(2);
    let mut saw_a = false;
    let mut saw_b = false;
    for seed in 0..40u64 {
        let mut rng = test_rng(seed.wrapping_mul(6151).wrapping_add(3));
        let child = a.crossover(&b, &mut rng);
        if child.input_weights[0] == 1 {
            saw_a = true;
        } else {
            saw_b = true;
        }
    }
    assert!(saw_a && saw_b);
}

#[test]
fn population_of_one_hundred_keeps_its_size_across_a_generation() {
    // 100 agents, 10 elites: one generation step yields exactly 100 agents
    // and advances the generation counter by exactly 1.
    let brains: Vec<Brain> = (0..100).map(|i| marked_brain(i as u32)).collect();
    let mut rng = test_rng(5);
    let mut pop = Population::new(&brains, default_config(), &mut rng).unwrap();
    assert_eq!(pop.generation, 1);
    assert_eq!(pop.snakes.len(), 100);
    let offspring: Vec<Brain> = (0..90).map(|i| marked_brain(1000 + i as u32)).collect();
    pop.up_generation(&offspring, &mut rng);
    assert_eq!(pop.snakes.len(), 100);
    assert_eq!(pop.generation, 2);
}

#[test]
fn elites_carry_their_brains_over_bit_identically() {
    let brains: Vec<Brain> = (0..100).map(|i| marked_brain(i as u32)).collect();
    let mut rng = test_rng(6);
    let mut pop = Population::new(&brains, default_config(), &mut rng).unwrap();
    let offspring: Vec<Brain> = (0..90).map(|_| marked_brain(7777)).collect();
    pop.up_generation(&offspring, &mut rng);
    for i in 0..10 {
        assert_eq!(brain_scalars(&pop.snakes[i].brain), brain_scalars(&marked_brain(i as u32)));
    }
    for k in 0..90 {
        assert_eq!(brain_scalars(&pop.snakes[10 + k].brain), brain_scalars(&marked_brain(7777)));
    }
}

#[test]
fn population_rejects_an_empty_brain_list() {
    let mut rng = test_rng(7);
    let r = Population::new(&Vec::new(), default_config(), &mut rng);
    assert_eq!(r.err(), Some(SimError::EmptyPopulation));
}

#[test]
fn population_rejects_parameters_that_do_not_fit() {
    let brains: Vec<Brain> = (0..5).map(|i| marked_brain(i as u32)).collect();
    let mut rng = test_rng(8);
    // Selection pool larger than the population.
    let r = Population::new(
        &brains,
        PopulationConfig { transfer_count: 2, mutation_permille: 100, crossover: 100 },
        &mut rng,
    );
    assert_eq!(r.err(), Some(SimError::InvalidConfig));
    // Elites beyond the selection pool.
    let r = Population::new(
        &brains,
        PopulationConfig { transfer_count: 4, mutation_permille: 100, crossover: 3 },
        &mut rng,
    );
    assert_eq!(r.err(), Some(SimError::InvalidConfig));
}

#[test]
fn train_counts_the_agents_still_alive() {
    let brains: Vec<Brain> = (0..3).map(|_| marked_brain(0)).collect();
    let mut rng = test_rng(9);
    let mut pop = Population::new(
        &brains,
        PopulationConfig { transfer_count: 1, mutation_permille: 0, crossover: 3 },
        &mut rng,
    )
    .unwrap();
    for s in pop.snakes.iter_mut() {
        s.apple = snake_evolution::apple::Apple { x: 0, y: 0 };
    }
    let outputs = vec![BrainOutput { up: 0, down: 0, left: 0, right: 0 }; 3];
    let alive = pop.train(&outputs, &mut rng).unwrap();
    assert_eq!(alive, 3);
    for s in pop.snakes.iter() {
        assert_eq!(s.lifetime, 1);
        assert_eq!(s.steps_left, 99);
    }
    // With one step left each, the next tick kills all three.
    for s in pop.snakes.iter_mut() {
        s.steps_left = 1;
    }
    let alive = pop.train(&outputs, &mut rng).unwrap();
    assert_eq!(alive, 0);
    // Dead agents are left untouched by further ticks.
    let alive = pop.train(&outputs, &mut rng).unwrap();
    assert_eq!(alive, 0);
    for s in pop.snakes.iter() {
        assert_eq!(s.lifetime, 2);
    }
}

#[test]
fn evaluate_scores_every_agent() {
    let brains: Vec<Brain> = (0..3).map(|_| marked_brain(0)).collect();
    let mut rng = test_rng(10);
    let mut pop = Population::new(
        &brains,
        PopulationConfig { transfer_count: 1, mutation_permille: 0, crossover: 2 },
        &mut rng,
    )
    .unwrap();
    pop.snakes[0].score = 2;
    pop.snakes[0].lifetime = 10;
    pop.snakes[1].score = 11;
    pop.snakes[1].lifetime = 3;
    pop.snakes[2].score = 0;
    pop.snakes[2].lifetime = 55;
    pop.evaluate();
    assert_eq!(pop.snakes[0].fitness, 100 * 4);
    assert_eq!(pop.snakes[1].fitness, 9 * 1024 * 2);
    assert_eq!(pop.snakes[2].fitness, 0);
}

#[test]
fn sort_orders_agents_by_descending_fitness() {
    let brains: Vec<Brain> = (0..4).map(|i| marked_brain(i as u32)).collect();
    let mut rng = test_rng(11);
    let mut pop = Population::new(
        &brains,
        PopulationConfig { transfer_count: 1, mutation_permille: 0, crossover: 2 },
        &mut rng,
    )
    .unwrap();
    pop.snakes[0].fitness = 5;
    pop.snakes[1].fitness = 40;
    pop.snakes[2].fitness = 1;
    pop.snakes[3].fitness = 40;
    pop.sort();
    let fits: Vec<u128> = pop.snakes.iter().map(|s| s.fitness).collect();
    assert_eq!(fits, vec![40, 40, 5, 1]);
}

#[test]
fn best_builds_a_replay_copy_of_rank_zero() {
    let brains: Vec<Brain> = (0..2).map(|i| marked_brain(i as u32)).collect();
    let mut rng = test_rng(12);
    let mut pop = Population::new(
        &brains,
        PopulationConfig { transfer_count: 1, mutation_permille: 0, crossover: 2 },
        &mut rng,
    )
    .unwrap();
    pop.snakes[0].fitness = 99;
    pop.snakes[0].apples.push_back(snake_evolution::apple::Apple { x: 8, y: 9 });
    pop.snakes[0].apples.push_back(snake_evolution::apple::Apple { x: 1, y: 2 });
    let s = pop.best().unwrap();
    assert!(s.replay);
    assert_eq!(s.fitness, 99);
    assert_eq!((s.apple.x, s.apple.y), (8, 9));
    assert_eq!(s.apples.len(), 1);
    assert_eq!((s.apples[0].x, s.apples[0].y), (1, 2));
    assert_eq!(brain_scalars(&s.brain), brain_scalars(&marked_brain(0)));
    assert_eq!(s.position(), (16, 16));
    assert!(!s.is_dead);
    assert_eq!(s.score, 0);
}

#[test]
fn best_on_an_empty_population_is_refused() {
    let pop = Population {
        snakes: Vec::new(),
        size: 0,
        generation: 1,
        transfer_count: 0,
        mutation_permille: 0,
        crossover: 0,
    };
    assert_eq!(pop.best().err(), Some(SimError::EmptyPopulation));
}

#[test]
fn breed_crosses_two_parents_from_the_selection_pool() {
    let brains: Vec<Brain> = (0..4).map(|i| marked_brain(i as u32)).collect();
    let mut rng = test_rng(13);
    let pop = Population::new(
        &brains,
        PopulationConfig { transfer_count: 1, mutation_permille: 0, crossover: 4 },
        &mut rng,
    )
    .unwrap();
    for _ in 0..10 {
        let (child, mask) = pop.breed(&mut rng);
        assert_eq!(mask.len(), SCALAR_COUNT);
        assert!(mask.iter().all(|&b| !b));
        for tensor in [
            &child.input_weights,
            &child.hidden_weights,
            &child.input_biases,
            &child.hidden_biases,
        ] {
            let first = tensor[0];
            assert!(first < 4);
            assert!(tensor.iter().all(|&w| w == first));
        }
    }
}
