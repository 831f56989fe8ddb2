//! An evolutionary trainer for grid-world snake agents: each agent carries a
//! small fixed-topology neural network, and a genetic algorithm (selection,
//! block-wise crossover, per-weight mutation, elitism) breeds successive
//! generations.

pub mod apple;
pub mod brain;
pub mod direction;
pub mod error;
pub mod population;
pub mod rng;
pub mod settings;
pub mod snake;

pub use direction::Direction;
