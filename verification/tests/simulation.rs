use snake_evolution::apple::Apple;
use snake_evolution::brain::{Brain, BrainOutput};
use snake_evolution::direction::Direction;
use snake_evolution::error::SimError;
use rand::rngs::StdRng;
use snake_evolution::snake::{place_apple, Snake, Tail};
use std::collections::VecDeque;

fn test_rng(seed: u64) -> StdRng {
    <StdRng as rand::SeedableRng>::seed_from_u64(seed)
}

fn zero_brain() -> Brain {
    Brain::new(vec![0u32; 384], vec![0u32; 64], vec![0u32; 16], vec![0u32; 4]).unwrap()
}

fn zero_output() -> BrainOutput {
    BrainOutput { up: 0, down: 0, left: 0, right: 0 }
}

fn fresh_snake(seed: u64) -> Snake {
    let mut rng = test_rng(seed);
    Snake::new(zero_brain(), &mut rng)
}

#[test]
fn inverted_maps_each_heading_to_its_opposite() {
    assert_eq!(Direction::Up.inverted(), Direction::Down);
    assert_eq!(Direction::Down.inverted(), Direction::Up);
    assert_eq!(Direction::Left.inverted(), Direction::Right);
    assert_eq!(Direction::Right.inverted(), Direction::Left);
}

#[test]
fn delta_gives_unit_vectors() {
    assert_eq!(Direction::Up.delta(), (0, -1));
    assert_eq!(Direction::Down.delta(), (0, 1));
    assert_eq!(Direction::Left.delta(), (-1, 0));
    assert_eq!(Direction::Right.delta(), (1, 0));
}

#[test]
fn fresh_snake_starts_at_centre_with_two_segments() {
    let s = fresh_snake(7);
    assert_eq!(s.position(), (16, 16));
    assert_eq!(s.direction, Direction::Up);
    assert_eq!(s.tail.len(), 2);
    assert_eq!((s.tail[0].x, s.tail[0].y), (16, 17));
    assert_eq!((s.tail[1].x, s.tail[1].y), (16, 18));
    assert_eq!(s.score, 0);
    assert_eq!(s.steps_left, 100);
    assert_eq!(s.lifetime, 0);
    assert!(!s.is_dead);
    assert!(!s.replay);
    assert!(s.apple.x >= 0 && s.apple.x < 48 && s.apple.y >= 0 && s.apple.y < 48);
}

#[test]
fn observe_fills_exactly_24_vision_values() {
    let mut s = fresh_snake(11);
    s.apple = Apple { x: 0, y: 0 };
    s.observe();
    assert_eq!(s.vision.len(), 24);
    s.observe();
    assert_eq!(s.vision.len(), 24);
}

#[test]
fn observe_codes_walls_bodies_and_apples_by_distance() {
    let mut s = fresh_snake(13);
    s.apple = Apple { x: 20, y: 16 };
    s.observe();
    // scan order: W, NW, N, NE, E, SE, S, SW; channels apple, body, wall.
    // Head (16,16): west wall at distance 17.
    assert_eq!(s.vision[2], 17);
    // North: wall 17, no body.
    assert_eq!(s.vision[7], 0);
    assert_eq!(s.vision[8], 17);
    // North-west: both walls at 17.
    assert_eq!(s.vision[5], 17);
    // East: apple at (20,16) lies on the ray; wall at 32.
    assert_eq!(s.vision[12], 1);
    assert_eq!(s.vision[14], 32);
    // South: first body segment at distance 1; wall at 32.
    assert_eq!(s.vision[19], 1);
    assert_eq!(s.vision[20], 32);
    // South-west: x wall at 17 is nearer than y wall at 32.
    assert_eq!(s.vision[23], 17);
    // No apple on the other rays.
    assert_eq!(s.vision[0], 0);
    assert_eq!(s.vision[6], 0);
    assert_eq!(s.vision[18], 0);
}

#[test]
fn all_zero_output_keeps_direction_and_costs_one_step() {
    // Agent at (16,16), body length 2, heading up, no food in its path:
    // one tick leaves the heading alone and spends exactly one step.
    let mut s = fresh_snake(17);
    s.apple = Apple { x: 0, y: 0 };
    let mut rng = test_rng(18);
    s.observe();
    s.update(&zero_output(), &mut rng).unwrap();
    assert_eq!(s.direction, Direction::Up);
    assert_eq!(s.steps_left, 99);
    assert_eq!(s.lifetime, 1);
    assert_eq!(s.position(), (16, 15));
    assert!(!s.is_dead);
    assert_eq!((s.tail[0].x, s.tail[0].y), (16, 16));
    assert_eq!((s.tail[1].x, s.tail[1].y), (16, 17));
    assert_eq!(s.tail.len(), 2);
}

#[test]
fn update_never_reverses_the_heading() {
    let mut s = fresh_snake(19);
    s.apple = Apple { x: 0, y: 0 };
    let mut rng = test_rng(20);
    // The network shouts "down" while the snake heads up: refused.
    let down = BrainOutput { up: 0, down: 9, left: 0, right: 0 };
    s.update(&down, &mut rng).unwrap();
    assert_eq!(s.direction, Direction::Up);
    // A left turn is accepted.
    let left = BrainOutput { up: 0, down: 0, left: 9, right: 0 };
    s.update(&left, &mut rng).unwrap();
    assert_eq!(s.direction, Direction::Left);
    // And from heading left, a right turn is refused.
    let right = BrainOutput { up: 0, down: 0, left: 0, right: 9 };
    s.update(&right, &mut rng).unwrap();
    assert_eq!(s.direction, Direction::Left);
}

#[test]
fn ties_favour_the_lowest_output_index() {
    let mut s = fresh_snake(23);
    s.apple = Apple { x: 0, y: 0 };
    s.direction = Direction::Right;
    let mut rng = test_rng(24);
    let tied = BrainOutput { up: 3, down: 3, left: 3, right: 3 };
    s.update(&tied, &mut rng).unwrap();
    assert_eq!(s.direction, Direction::Up);
}

#[test]
fn eating_grows_scores_and_replaces_the_apple() {
    let mut s = fresh_snake(29);
    s.apple = Apple { x: 16, y: 15 };
    let mut rng = test_rng(30);
    s.update(&zero_output(), &mut rng).unwrap();
    assert_eq!(s.score, 1);
    assert_eq!(s.steps_left, 199);
    assert!(s.should_grow);
    assert!(!s.is_dead);
    // The eaten cell was recorded for replay.
    assert_eq!(s.apples.len(), 1);
    assert_eq!((s.apples[0].x, s.apples[0].y), (16, 15));
    // The fresh apple avoids the head, the body and the eaten cell.
    assert!((s.apple.x, s.apple.y) != (16, 15));
    assert!((s.apple.x, s.apple.y) != s.position());
    assert!(!s.tail.iter().any(|t| (t.x, t.y) == (s.apple.x, s.apple.y)));
    assert!(s.apple.x >= 0 && s.apple.x < 48 && s.apple.y >= 0 && s.apple.y < 48);
    // The next tick the body grows by one segment.
    s.update(&zero_output(), &mut rng).unwrap();
    assert_eq!(s.tail.len(), 3);
    assert!(!s.should_grow);
}

#[test]
fn replay_mode_feeds_recorded_apples_in_order() {
    let mut s = fresh_snake(31);
    s.replay = true;
    s.apple = Apple { x: 16, y: 15 };
    s.apples = VecDeque::new();
    s.apples.push_back(Apple { x: 3, y: 4 });
    s.apples.push_back(Apple { x: 5, y: 6 });
    let mut rng = test_rng(32);
    s.update(&zero_output(), &mut rng).unwrap();
    assert_eq!((s.apple.x, s.apple.y), (3, 4));
    assert_eq!(s.apples.len(), 1);
    assert_eq!((s.apples[0].x, s.apples[0].y), (5, 6));
}

#[test]
fn hitting_a_wall_kills_and_records_the_apple_for_replay() {
    let mut s = fresh_snake(37);
    s.x = 0;
    s.direction = Direction::Left;
    s.apple = Apple { x: 40, y: 40 };
    let mut rng = test_rng(38);
    s.update(&zero_output(), &mut rng).unwrap();
    assert!(s.is_dead);
    assert_eq!(s.position(), (-1, 16));
    assert_eq!(s.steps_left, 100);
    assert_eq!(s.lifetime, 1);
    assert_eq!(s.apples.len(), 1);
    assert_eq!((s.apples[0].x, s.apples[0].y), (40, 40));
}

#[test]
fn crossing_the_own_body_kills() {
    let mut s = fresh_snake(41);
    s.direction = Direction::Down;
    s.apple = Apple { x: 40, y: 40 };
    let mut rng = test_rng(42);
    s.update(&zero_output(), &mut rng).unwrap();
    assert!(s.is_dead);
}

#[test]
fn running_out_of_steps_kills() {
    let mut s = fresh_snake(43);
    s.steps_left = 1;
    s.apple = Apple { x: 40, y: 40 };
    let mut rng = test_rng(44);
    s.update(&zero_output(), &mut rng).unwrap();
    assert!(s.is_dead);
    assert_eq!(s.steps_left, 0);
}

#[test]
fn randomize_apple_avoids_head_body_and_previous_cell() {
    for seed in 0..50u64 {
        let mut s = fresh_snake(seed);
        let before = s.apple;
        let mut rng = test_rng(seed.wrapping_mul(977).wrapping_add(1));
        s.randomize_apple(&mut rng).unwrap();
        let a = s.apple;
        assert!((a.x, a.y) != (before.x, before.y));
        assert!((a.x, a.y) != s.position());
        assert!(!s.tail.iter().any(|t| (t.x, t.y) == (a.x, a.y)));
        assert!(a.x >= 0 && a.x < 48 && a.y >= 0 && a.y < 48);
    }
}

#[test]
fn food_placement_on_a_covered_board_is_exhausted() {
    let mut tail = VecDeque::new();
    for x in 0..48 {
        for y in 0..48 {
            tail.push_back(Tail::new(x, y));
        }
    }
    let mut rng = test_rng(45);
    let r = place_apple(&mut rng, 0, 0, &tail, Apple { x: 0, y: 0 });
    assert_eq!(r, Err(SimError::FoodPlacementExhausted));
}

#[test]
fn fitness_formula_has_its_jump_at_score_ten() {
    // score 9, lifetime 50: 2500 * 81 = 202500.
    let mut s = fresh_snake(47);
    s.score = 9;
    s.lifetime = 50;
    s.determine_fitness();
    assert_eq!(s.fitness, 202_500);
    // score 10, lifetime 50: 2500 * 1024 * 1 = 2560000.
    s.score = 10;
    s.determine_fitness();
    assert_eq!(s.fitness, 2_560_000);
}

#[test]
fn fitness_matches_the_piecewise_formula() {
    let mut s = fresh_snake(53);
    s.score = 0;
    s.lifetime = 99;
    s.determine_fitness();
    assert_eq!(s.fitness, 0);
    s.score = 3;
    s.lifetime = 7;
    s.determine_fitness();
    assert_eq!(s.fitness, 49 * 9);
    s.score = 15;
    s.lifetime = 2;
    s.determine_fitness();
    assert_eq!(s.fitness, 4 * 1024 * 6);
}

#[test]
fn brain_rejects_wrong_tensor_shapes() {
    let r = Brain::new(vec![0u32; 383], vec![0u32; 64], vec![0u32; 16], vec![0u32; 4]);
    assert_eq!(r.err(), Some(SimError::VisionVectorSize));
    let r = Brain::new(vec![0u32; 384], vec![0u32; 64], vec![0u32; 16], vec![0u32; 5]);
    assert_eq!(r.err(), Some(SimError::VisionVectorSize));
    assert!(Brain::new(vec![0u32; 384], vec![0u32; 64], vec![0u32; 16], vec![0u32; 4]).is_ok());
}
