//! Fixed-depth adversarial game-tree search over pluggable games and
//! evaluators, with a chess evaluator and a chess state adapter.
//!
//! - `game`: what a game state and an evaluator provide, and the value the
//!   search assigns to every node.
//! - `mini_max`, `alpha_beta`: the search, plain and with cutoffs.
//! - `board`, `tables`, `evaluator`: the chess evaluator.
//! - `state`: chess games as search states, game outcomes, hash input.
//! - `tic_tac_toe`: a small game on which the search is exercised.
pub mod alpha_beta;
pub mod board;
pub mod evaluator;
pub mod game;
pub mod mini_max;
pub mod state;
pub mod tables;
pub mod tic_tac_toe;
